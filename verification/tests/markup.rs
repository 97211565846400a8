use synixe_bot::briefing::{
    attr_value, briefing_source, find_char_from, image_link_exec, lines, replace_images,
    replace_tags, BriefingParts,
};
use synixe_bot::schedule::lex_less;
use synixe_bot::text::{digit, occurs_at_exec, parse_u64_chars, push_chars, push_decimal, push_int};

fn v(s: &str) -> Vec<char> {
    s.chars().collect()
}

fn s(c: &[char]) -> String {
    c.iter().collect()
}

#[test]
fn lines_as_std_splits_them() {
    for text in ["", "a", "a\n", "a\r\nb", "\n\nx\n", "one\ntwo\r\nthree"] {
        let ours: Vec<String> = lines(&v(text)).iter().map(|l| s(l)).collect();
        let std: Vec<String> = text.lines().map(str::to_string).collect();
        assert_eq!(ours, std, "{text:?}");
    }
}

#[test]
fn find_char_from_positions() {
    let t = v("a>b>c");
    assert_eq!(find_char_from(&t, '>', 0), 1);
    assert_eq!(find_char_from(&t, '>', 2), 3);
    assert_eq!(find_char_from(&t, '>', 4), 5);
    assert_eq!(find_char_from(&t, '>', 5), 5);
}

#[test]
fn tags_become_headings_or_vanish() {
    assert_eq!(s(&replace_tags(&v("<font color='#E0A750'>SITUATION</font>"))), "### SITUATION");
    assert_eq!(s(&replace_tags(&v("a <b> c <> d"))), "a  c <> d");
    assert_eq!(s(&replace_tags(&v("no tags"))), "no tags");
    assert_eq!(s(&replace_tags(&v("open < only"))), "open < only");
}

#[test]
fn attribute_values() {
    let attrs = v("image='FOLDER\\IMAGE.jpg' width='200' name=\"Map\"");
    assert_eq!(attr_value(&attrs, &v("image=")).map(|x| s(&x)), Some("FOLDER\\IMAGE.jpg".to_string()));
    assert_eq!(attr_value(&attrs, &v("name=")).map(|x| s(&x)), Some("Map".to_string()));
    assert_eq!(attr_value(&attrs, &v("height=")), None);
    assert_eq!(attr_value(&v("image=''"), &v("image=")), None);
}

#[test]
fn image_links() {
    let link = image_link_exec(&v("image='pic.jpg' name='Map'"), &v("contracts"), &v("co30_test"));
    assert_eq!(
        link.map(|x| s(&x)),
        Some("[Map](https://raw.githubusercontent.com/SynixeContractors/Missions/main/contracts/co30_test/pic.jpg)".to_string())
    );
    let unnamed = image_link_exec(&v("image=\"a/b.png\""), &v("f"), &v("m"));
    assert_eq!(
        unnamed.map(|x| s(&x)),
        Some("[image](https://raw.githubusercontent.com/SynixeContractors/Missions/main/f/m/a/b.png)".to_string())
    );
    assert_eq!(image_link_exec(&v("width='3'"), &v("f"), &v("m")), None);
}

#[test]
fn images_replaced_in_text() {
    let out = replace_images(&v("before <img image='x.jpg' width='1'/> after"), &v("f"), &v("m"));
    assert_eq!(
        out.map(|x| s(&x)),
        Some("before [image](https://raw.githubusercontent.com/SynixeContractors/Missions/main/f/m/x.jpg) after".to_string())
    );
    assert_eq!(replace_images(&v("<img width='1'/>"), &v("f"), &v("m")), None);
    assert_eq!(replace_images(&v("<img >"), &v("f"), &v("m")).map(|x| s(&x)), Some("<img >".to_string()));
}

#[test]
fn briefing_source_orders_parts() {
    let parts = BriefingParts { situation: Some("S\n".into()), mission: None, objectives: Some("O".into()) };
    assert_eq!(s(&briefing_source(&parts)), "## Situation\nS\n## Objectives\nO");
    let empty = BriefingParts { situation: None, mission: None, objectives: None };
    assert_eq!(briefing_source(&empty), Vec::<char>::new());
}

#[test]
fn names_order_by_characters() {
    assert!(lex_less(&v("Alpha"), &v("Bravo")));
    assert!(lex_less(&v("Al"), &v("Alpha")));
    assert!(!lex_less(&v("Alpha"), &v("Alpha")));
    assert!(!lex_less(&v("b"), &v("B")));
    assert!(lex_less(&v(""), &v("a")));
}

#[test]
fn digits_and_numbers_pushed() {
    assert_eq!(digit(0), '0');
    assert_eq!(digit(9), '9');
    let mut out = String::from("n=");
    push_decimal(&mut out, 407);
    push_chars(&mut out, &v(", i="));
    push_int(&mut out, -12);
    push_chars(&mut out, &v(", z="));
    push_int(&mut out, 0);
    assert_eq!(out, "n=407, i=-12, z=0");
}

#[test]
fn numbers_read_from_characters() {
    assert_eq!(parse_u64_chars(&v("12345")), Some(12345));
    assert_eq!(parse_u64_chars(&v("18446744073709551615")), Some(u64::MAX));
    assert_eq!(parse_u64_chars(&v("18446744073709551616")), None);
    assert_eq!(parse_u64_chars(&v("")), None);
    assert_eq!(parse_u64_chars(&v("12a")), None);
}

#[test]
fn occurrences_at_positions() {
    let t = v("abcabc");
    assert!(occurs_at_exec(&t, &v("abc"), 3));
    assert!(!occurs_at_exec(&t, &v("abc"), 1));
    assert!(occurs_at_exec(&t, &v(""), 6));
    assert!(!occurs_at_exec(&t, &v("c"), 7));
}
