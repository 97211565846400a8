use synixe_bot::handler::{
    autocomplete_route, button_route, chat_route, chat_route_now, command_route, counter_step,
    departure_log, message_route, needs_starting_funds, reachout_log, recheck_edit, same_text,
    welcome, ButtonRoute, ChannelKind, ChatRoute, CommandRoute, MessageRoute, PostedMessage,
    STARTING_FUNDS,
};

#[test]
fn commands_routed() {
    assert_eq!(command_route("bank"), CommandRoute::Bank);
    assert_eq!(command_route("surveys"), CommandRoute::Surveys);
    assert_eq!(command_route("AAR - Pay"), CommandRoute::AarPay);
    assert_eq!(command_route("AAR - Get IDs"), CommandRoute::AarIds);
    assert_eq!(command_route("meme"), CommandRoute::Ignored);
    assert_eq!(autocomplete_route("garage"), CommandRoute::Garage);
    assert_eq!(autocomplete_route("bank"), CommandRoute::Ignored);
    assert!(same_text("a", "a") && !same_text("a", "ab"));
}

#[test]
fn buttons_routed() {
    assert_eq!(button_route("rsvp_maybe"), (false, ButtonRoute::Rsvp));
    assert_eq!(button_route("survey_submit:123"), (true, ButtonRoute::Ignored));
    assert_eq!(button_route("reachout_no"), (false, ButtonRoute::ReachoutNo));
    assert_eq!(
        reachout_log(ButtonRoute::ReachoutYes, 4),
        Some("<@4> is currently busy or not interested in playing Arma, but wants to return to Synixe in the future!".to_string())
    );
    assert_eq!(
        reachout_log(ButtonRoute::ReachoutMaybe, 4),
        Some("<@4> is not interested in playing, but wishes to remain in the Discord for now".to_string())
    );
    assert_eq!(reachout_log(ButtonRoute::Rsvp, 4), None);
}

#[test]
fn member_messages() {
    assert_eq!(departure_log("bob", Some(42), 7, false), "bob#42 (7) has left, <@7>");
    assert_eq!(departure_log("bob", None, 7, true), "bob (7) was banned, <@7>");
    assert_eq!(
        welcome(1, 2),
        "Welcome <@1>! Please follow the steps in <#2> to get prepared to jump in game with us. If you have any questions, feel free to ask here or reply to this post, I may know the answer!"
    );
    assert_eq!(STARTING_FUNDS, 3500);
    assert!(needs_starting_funds(&vec![3, 9], 9, 0));
    assert!(!needs_starting_funds(&vec![3, 9], 9, 1));
    assert!(!needs_starting_funds(&vec![3], 9, 0));
}

fn posted(channel: ChannelKind, content: &str) -> PostedMessage {
    PostedMessage {
        channel,
        content: content.into(),
        from_bot: false,
        from_self: false,
        has_embeds: false,
        mentions_self: false,
    }
}

#[test]
fn messages_routed() {
    assert_eq!(message_route(&posted(ChannelKind::Leadership, "!exec active")), MessageRoute::CheckReport);
    assert_eq!(message_route(&posted(ChannelKind::Other, "!exec mission-bump")), MessageRoute::BumpMissions);
    assert_eq!(message_route(&posted(ChannelKind::Bot, "!exec active")), MessageRoute::UpdateActivity);
    assert_eq!(message_route(&posted(ChannelKind::Lobby, "!exec active")), MessageRoute::Continue);
}

#[test]
fn bump_every_fifteenth_message() {
    let mut since = 0u32;
    let mut bumps = vec![];
    for i in 0..45 {
        let (next, bump) = counter_step(since, false);
        since = next;
        if bump {
            bumps.push(i + 1);
        }
    }
    assert_eq!(bumps, vec![15, 30, 45]);
    assert_eq!(counter_step(14, true), (0, false));
}

#[test]
fn chat_decisions() {
    let mut m = posted(ChannelKind::OnTopic, "hi");
    assert_eq!(chat_route(&m, true, 50), ChatRoute::Observe);
    assert_eq!(chat_route(&m, true, 3), ChatRoute::Answer);
    assert_eq!(chat_route(&m, false, 3), ChatRoute::Ignore);
    m.mentions_self = true;
    assert_eq!(chat_route(&m, true, 99), ChatRoute::Answer);
    m.from_bot = true;
    assert_eq!(chat_route(&m, true, 0), ChatRoute::Ignore);
    assert_eq!(chat_route(&posted(ChannelKind::Leadership, "hi"), true, 0), ChatRoute::Ignore);
    assert_eq!(chat_route(&posted(ChannelKind::Lobby, ""), true, 0), ChatRoute::Ignore);
    let r = chat_route_now(&posted(ChannelKind::Bot, "hi"), true);
    assert!(r == ChatRoute::Answer || r == ChatRoute::Observe);
}

#[test]
fn edits_rechecked() {
    assert!(recheck_edit(None));
    assert!(recheck_edit(Some("```report")));
    assert!(recheck_edit(Some("report```")));
    assert!(!recheck_edit(Some("plain")));
}
