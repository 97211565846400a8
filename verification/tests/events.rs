use synixe_bot::events::{
    active_ids, activity_change, activity_log, attending, is_markdown, member_by_name,
    net_worth, pick_tip, post_message_id, roles_to_add, rsvp_report, rsvp_report_log,
    thread_id_of, thread_member_added, tick_due, tip_image, tip_message, username, wallet_ids,
    ActivityChange, NamedMember,
};
use synixe_bot::schedule::{MissionRsvp, Rsvp};

#[test]
fn roles_added_once() {
    assert_eq!(roles_to_add(&vec![1, 2, 3], &vec![2]), vec![1, 3]);
    assert_eq!(roles_to_add(&vec![2], &vec![2]), Vec::<u64>::new());
}

#[test]
fn threads() {
    assert_eq!(thread_id_of("123"), 123);
    assert_eq!(thread_id_of("abc"), 0);
    assert_eq!(thread_member_added(5, "maintainer"), "Added <@5> to the thread: maintainer");
}

#[test]
fn members_by_name() {
    let ms = vec![
        NamedMember { nick: Some("Ace".into()), user_name: "ace_1".into(), id: 1 },
        NamedMember { nick: None, user_name: "Ace".into(), id: 2 },
        NamedMember { nick: None, user_name: "bob".into(), id: 3 },
    ];
    assert_eq!(member_by_name(&ms, "Ace"), Some(1));
    assert_eq!(member_by_name(&ms, "ace_1"), Some(1));
    assert_eq!(member_by_name(&ms, "bob"), Some(3));
    assert_eq!(member_by_name(&ms, "zed"), None);
    assert_eq!(username(&Some("Ace".into()), &"ace_1".to_string()), "Ace");
    assert_eq!(username(&None, &"ace_1".to_string()), "ace_1");
}

#[test]
fn activity_roles() {
    assert_eq!(active_ids(&vec!["5".into(), "0".into(), "7".into()]), Some(vec![5, 7]));
    assert_eq!(active_ids(&vec!["x".into()]), None);
    let active = vec![5, 7];
    assert_eq!(activity_change(&active, 5, false), ActivityChange::Add);
    assert_eq!(activity_change(&active, 6, true), ActivityChange::Remove);
    assert_eq!(activity_change(&active, 7, true), ActivityChange::Keep);
    assert_eq!(activity_change(&active, 8, false), ActivityChange::Keep);
    assert_eq!(activity_log(ActivityChange::Add, 5), Some("<@5> is now active".to_string()));
    assert_eq!(activity_log(ActivityChange::Remove, 6), Some("<@6> is no longer active".to_string()));
    assert_eq!(activity_log(ActivityChange::Keep, 6), None);
}

#[test]
fn weekly_tips() {
    assert!(is_markdown("tip.md"));
    assert!(is_markdown("a.b.md"));
    assert!(!is_markdown(".md"));
    assert!(!is_markdown("tip.webp"));
    assert!(!is_markdown("md"));
    let names = vec!["a.png".to_string(), "b.md".to_string(), "c.txt".to_string()];
    assert_eq!(pick_tip(&names), Some(1));
    assert_eq!(pick_tip(&vec!["a.png".to_string()]), None);
    assert_eq!(tip_message("Drink water"), "## Tip of the Week\n\nDrink water");
    assert_eq!(tip_image(false, true, true), Some("png"));
    assert_eq!(tip_image(true, true, true), Some("webp"));
    assert_eq!(tip_image(false, false, false), None);
}

#[test]
fn rsvp_report_lines() {
    let rsvps = vec![
        MissionRsvp { member: "1".into(), state: Rsvp::Yes, details: None },
        MissionRsvp { member: "2".into(), state: Rsvp::Maybe, details: Some("burnt_out".into()) },
        MissionRsvp { member: "3".into(), state: Rsvp::No, details: None },
    ];
    let report = rsvp_report(&rsvps);
    assert_eq!(report, "<@2>: Maybe (burnt_out)\n<@3>: No ()\n");
    assert_eq!(rsvp_report_log("Op", &report), "RSVP Report for Op: \n<@2>: Maybe (burnt_out)\n<@3>: No ()\n");
    assert_eq!(attending(&rsvps), Some(vec![1]));
    let bad = vec![MissionRsvp { member: "x".into(), state: Rsvp::Yes, details: None }];
    assert_eq!(attending(&bad), None);
}

#[test]
fn odds_and_ends() {
    assert_eq!(post_message_id("123:456"), Some(456));
    assert_eq!(post_message_id("456"), None);
    assert_eq!(post_message_id("1:2:3"), None);
    assert_eq!(net_worth(100, 20, -5), 115);
    assert_eq!(wallet_ids("issuer", 7), ("issuer.balance".to_string(), "issuer.balance_7".to_string()));
    assert!(tick_due(0) && tick_due(35));
    assert!(!tick_due(7));
}
