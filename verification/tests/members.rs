use synixe_bot::members::{candidate_ids, find_members, trim, GuildMember, SPECIAL_ID};

fn guild() -> Vec<GuildMember> {
    vec![
        GuildMember { display_name: "Alice".into(), id: 1 },
        GuildMember { display_name: "bob".into(), id: 2 },
        GuildMember { display_name: "BOB".into(), id: 3 },
    ]
}

#[test]
fn ids_are_read_where_they_parse() {
    let input = vec!["123".to_string(), "alice".to_string(), "+7".to_string()];
    assert_eq!(candidate_ids(&input), vec![Some(123), None, Some(7)]);
}

#[test]
fn names_match_ignoring_case_first_wins() {
    let names = vec!["  Bob ".to_string(), "alice".to_string(), "carol".to_string()];
    let lookups = vec![None, None, None];
    let (found, unknown) = find_members(&names, &lookups, &guild());
    assert_eq!(found, vec![("bob".to_string(), 2), ("Alice".to_string(), 1)]);
    assert_eq!(unknown, vec!["carol".to_string()]);
}

#[test]
fn ids_found_come_first() {
    let names = vec!["alice".to_string(), "99".to_string()];
    let lookups = vec![None, Some("Zed".to_string())];
    let (found, unknown) = find_members(&names, &lookups, &guild());
    assert_eq!(found, vec![("Zed".to_string(), 99), ("Alice".to_string(), 1)]);
    assert!(unknown.is_empty());
}

#[test]
fn special_name_resolves_to_its_id() {
    let names = vec!["Nathanial Greene".to_string()];
    let (found, unknown) = find_members(&names, &vec![None], &guild());
    assert_eq!(found, vec![("Nathanial Greene".to_string(), SPECIAL_ID)]);
    assert!(unknown.is_empty());
}

#[test]
fn every_name_is_found_or_unknown() {
    let names = vec!["x".to_string(), "bob".to_string(), "y".to_string(), "5".to_string()];
    let lookups = vec![None, None, None, Some("Five".to_string())];
    let (found, unknown) = find_members(&names, &lookups, &guild());
    assert_eq!(found.len() + unknown.len(), names.len());
}

#[test]
fn trimming_whitespace() {
    let t: String = trim(&" \t a b \n".chars().collect()).into_iter().collect();
    assert_eq!(t, "a b");
    assert!(trim(&"   ".chars().collect()).is_empty());
}
