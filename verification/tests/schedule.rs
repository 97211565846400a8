use synixe_bot::interaction::Confirmation;
use synixe_bot::schedule::{
    alphabetical, answer_heading, attendee_list, closing_rsvps, find_scheduled, label_text,
    members_answering, members_only_notice, milestone_message, mission_label, missions_offered,
    next_unposted, rsvp_button_kind, rsvp_reasons, schedule_hour, schedule_text, slot_free,
    slot_taken_reply, subcon_reply, time_line, upcoming_text, LabelText, MissionEntry,
    MissionRsvp, NamedRsvp, Rsvp, RsvpButton, ScheduledMission,
};

fn rsvp(member: &str, state: Rsvp) -> MissionRsvp {
    MissionRsvp { member: member.into(), state, details: None }
}

fn mission(id: &str, posted: bool) -> ScheduledMission {
    ScheduledMission {
        id: id.into(),
        mission: format!("CO_{id}"),
        name: format!("Mission {id}"),
        summary: format!("Summary {id}"),
        start: 1000,
        schedule_message_id: if posted { Some("1:2".into()) } else { None },
    }
}

#[test]
fn answers_grouped() {
    let rsvps = vec![rsvp("1", Rsvp::Yes), rsvp("2", Rsvp::No), rsvp("3", Rsvp::Yes)];
    assert_eq!(members_answering(&rsvps, Rsvp::Yes), vec!["1", "3"]);
    assert_eq!(members_answering(&rsvps, Rsvp::Maybe), Vec::<String>::new());
    assert_eq!(attendee_list(&vec!["1".into(), "3".into()]), "> <@1>\n> <@3>");
    assert_eq!(attendee_list(&vec![]), "-");
    assert_eq!(answer_heading(Rsvp::Yes, 2), "🟩 Attending (2)");
    assert_eq!(answer_heading(Rsvp::Maybe, 0), "🟨 Maybe (0)");
    assert_eq!(answer_heading(Rsvp::No, 11), "🟥 Declined (11)");
}

#[test]
fn sorted_by_name_stable() {
    let entries = vec![
        NamedRsvp { display_name: "Zed".into(), member: "1".into() },
        NamedRsvp { display_name: "Amy".into(), member: "2".into() },
        NamedRsvp { display_name: "Zed".into(), member: "3".into() },
        NamedRsvp { display_name: "Bo".into(), member: "4".into() },
    ];
    let members: Vec<String> = alphabetical(entries).into_iter().map(|r| r.member).collect();
    assert_eq!(members, vec!["2", "4", "1", "3"]);
}

#[test]
fn schedule_texts() {
    assert_eq!(time_line(1700000000), "<t:1700000000:F> - <t:1700000000:R>");
    assert_eq!(
        upcoming_text(&vec![mission("a", true)]),
        "**Upcoming Missions**\n\n**CO_a**\n<t:1000:F> - <t:1000:R>\n*Summary a*\n\n"
    );
    assert_eq!(upcoming_text(&vec![]), "**Upcoming Missions**\n\n");
    assert_eq!(next_unposted(&vec![mission("a", true), mission("b", false), mission("c", false)]), Some(1));
    assert_eq!(next_unposted(&vec![mission("a", true)]), None);
}

#[test]
fn offered_for_scheduling() {
    let list = || {
        vec![
            MissionEntry { id: "CO30_New".into(), play_count: None },
            MissionEntry { id: "TT30_Training".into(), play_count: Some(0) },
            MissionEntry { id: "CO20_Old".into(), play_count: Some(3) },
            MissionEntry { id: "tra30_x".into(), play_count: None },
        ]
    };
    let ids: Vec<String> = missions_offered(list(), true).into_iter().map(|m| m.id).collect();
    assert_eq!(ids, vec!["CO30_New"]);
    assert_eq!(missions_offered(list(), false).len(), 4);
}

#[test]
fn buttons_and_milestones() {
    assert_eq!(rsvp_button_kind("rsvp_yes"), RsvpButton::Yes);
    assert_eq!(rsvp_button_kind("rsvp_maybe"), RsvpButton::Maybe);
    assert_eq!(rsvp_button_kind("rsvp_no"), RsvpButton::No);
    assert_eq!(rsvp_button_kind("rsvp"), RsvpButton::Unknown);
    assert_eq!(milestone_message("5", 0), Some("<@5> will be attending their 1st mission".to_string()));
    assert_eq!(milestone_message("5", 15), Some("<@5> will be attending their 16th mission".to_string()));
    assert_eq!(milestone_message("5", 299), Some("<@5> will be attending their 300th mission".to_string()));
    assert_eq!(milestone_message("5", 3), None);
    assert!(closing_rsvps(0) && closing_rsvps(-1) && closing_rsvps(1));
    assert!(!closing_rsvps(2) && !closing_rsvps(-2));
}

#[test]
fn rsvp_prompts() {
    assert_eq!(
        members_only_notice(1, 2),
        "You must be a member to RSVP. Head to <#1> and ask any questions you may have, or checkout <#2> to apply and get started!"
    );
    let no = rsvp_reasons(Rsvp::No);
    assert_eq!(no.len(), 4);
    assert_eq!(no[0], ("I won't be able to make it".to_string(), "not_sure".to_string()));
    assert_eq!(no[2], ("I'm burnt out".to_string(), "burnt_out".to_string()));
    let maybe = rsvp_reasons(Rsvp::Maybe);
    assert_eq!(maybe[0].0, "I might not be able to make it");
    assert_eq!(maybe[3], ("Other".to_string(), "other".to_string()));
}

#[test]
fn scheduling_checks() {
    assert!(slot_free(Some(None)));
    assert!(slot_free(Some(Some(None))));
    assert!(slot_free(Some(Some(Some(false)))));
    assert!(!slot_free(Some(Some(Some(true)))));
    assert!(!slot_free(None));
    assert_eq!(slot_taken_reply(5), "A mission is already scheduled at <t:5:F>, or the check failed.");
    assert_eq!(schedule_text(false, "CO_x", 5), "Schedule `CO_x` for <t:5:F>?");
    assert_eq!(schedule_text(true, "CO_x", 5), "Scheduled `CO_x` for <t:5:F>");
    assert_eq!(subcon_reply(7), "A subcon is proposed for <t:7:F>");
    let label = mission_label("CO_x", "Jan 1 22:00");
    assert_eq!(label, "CO_x - Jan 1 22:00");
    assert_eq!(label_text(LabelText::ConfirmRemove, &label), "Are you sure you want to remove `CO_x - Jan 1 22:00`?");
    assert_eq!(label_text(LabelText::Removed, &label), "Removed `CO_x - Jan 1 22:00`");
    assert_eq!(label_text(LabelText::RemoveFailed, &label), "Failed to remove `CO_x - Jan 1 22:00`");
    assert_eq!(label_text(LabelText::ConfirmPost, &label), "Are you sure you want to post `CO_x - Jan 1 22:00`?");
    assert_eq!(find_scheduled(&vec![mission("a", true), mission("b", true)], "b"), Some(1));
    assert_eq!(find_scheduled(&vec![mission("a", true)], "z"), None);
    assert_eq!(schedule_hour(None, true), Some(16));
    assert_eq!(schedule_hour(None, false), Some(22));
    assert_eq!(schedule_hour(Some(9), true), Some(9));
    assert_eq!(schedule_hour(Some(24), false), None);
    let _ = Confirmation::Yes;
}
