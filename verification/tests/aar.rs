use synixe_bot::aar::{
    check_step, confirm_prompt, contractors_of, contractors_paid, ids_reply, paid_reply, pay_step,
    report_log, reputation_choices, split_chars, unknown_reply, CheckEvent, CheckStage,
    CheckWork, PayAction, PayEvent, PayStage, ScheduleLookup,
};
use synixe_bot::interaction::Confirmation;

#[test]
fn contractors_listed() {
    let report = "```\nMission: CO30_Test\nContractors: Alice, Bob Smith, carol\nDate: 2024\n```";
    assert_eq!(
        contractors_of(report),
        Some(vec!["Alice".to_string(), "Bob Smith".to_string(), "carol".to_string()])
    );
    assert_eq!(contractors_of("no list here"), None);
    assert_eq!(contractors_of("Contractors: "), Some(vec!["".to_string()]));
    let pieces: Vec<String> = split_chars(&"a, b,, c".chars().collect(), &", ".chars().collect())
        .into_iter()
        .map(|p| p.into_iter().collect())
        .collect();
    assert_eq!(pieces, vec!["a", "b,", "c"]);
}

#[test]
fn id_replies() {
    let found = vec![("Alice".to_string(), 1u64), ("Bob".to_string(), 2u64)];
    assert_eq!(ids_reply(&found, &vec![]), "**IDs**\n1\n2");
    assert_eq!(ids_reply(&found, &vec!["Zed".into(), "Q".into()]), "Could not find the following members: Zed, Q");
    assert_eq!(unknown_reply(&vec!["Zed".into()]), "Could not find the following members: Zed");
}

#[test]
fn reputation_levels() {
    let c = reputation_choices();
    assert_eq!(c.len(), 9);
    assert_eq!(c[0], ("Extremely Postive (150)".to_string(), 150));
    assert_eq!(c[4], ("Neutral (0)".to_string(), 0));
    assert_eq!(c[8], ("Extremely Negative (-200)".to_string(), -200));
}

fn reply_of(a: &PayAction) -> &str {
    match a {
        PayAction::Reply(t) => t.as_str(),
        _ => panic!("expected a reply, got {a:?}"),
    }
}

#[test]
fn payment_runs_through() {
    let (s, a) = pay_step(PayStage::Start, PayEvent::Started { staff: Some(true) });
    assert!(matches!(a, PayAction::FetchMessage));
    let (s, a) = pay_step(s, PayEvent::MessageFetched { found: true });
    assert!(matches!(a, PayAction::ParseReport));
    let (s, a) = pay_step(s, PayEvent::ReportParsed { error: None });
    assert!(matches!(a, PayAction::FetchReputation));
    let (s, a) = pay_step(s, PayEvent::ReputationFetched { found: true });
    assert!(matches!(a, PayAction::AskLevel));
    let (s, a) = pay_step(s, PayEvent::LevelChosen { value: Some("-10".into()) });
    assert_eq!(s, PayStage::Members { level: Some(-10) });
    assert!(matches!(a, PayAction::FindMembers));
    let (s, a) = pay_step(s, PayEvent::MembersFound { ok: true, unknown: vec![] });
    assert!(matches!(a, PayAction::FindSchedule));
    let (s, a) = pay_step(s, PayEvent::ScheduleFound { found: true });
    assert!(matches!(a, PayAction::RecordReputation(-10)));
    let (s, a) = pay_step(s, PayEvent::ReputationRecorded { ok: true });
    assert!(matches!(a, PayAction::AskPayment));
    let (s, a) = pay_step(s, PayEvent::PaymentChosen { ok: true });
    assert!(matches!(a, PayAction::AskConfirm));
    let (s, a) = pay_step(s, PayEvent::Confirmed { answer: Confirmation::Yes });
    assert!(matches!(a, PayAction::Pay));
    let (s, a) = pay_step(s, PayEvent::Paid { ok: true });
    assert_eq!(s, PayStage::Done);
    assert!(matches!(a, PayAction::Announce));
}

#[test]
fn payment_refusals() {
    let (s, a) = pay_step(PayStage::Start, PayEvent::Started { staff: None });
    assert_eq!((s, reply_of(&a)), (PayStage::Done, "Failed to get member"));
    let (_, a) = pay_step(PayStage::Start, PayEvent::Started { staff: Some(false) });
    assert_eq!(reply_of(&a), "You must be staff to use this command");
    let (_, a) = pay_step(PayStage::Report, PayEvent::ReportParsed { error: Some("bad date".into()) });
    assert_eq!(
        reply_of(&a),
        ":confused: I couldn't parse that AAR. Please make sure you're using the template. Error: bad date"
    );
    let (_, a) = pay_step(PayStage::Reputation, PayEvent::ReputationFetched { found: false });
    assert_eq!(reply_of(&a), "Failed to get get reputation");
    let (_, a) = pay_step(PayStage::Level, PayEvent::LevelChosen { value: None });
    assert_eq!(reply_of(&a), "Failed to get reputation");
    let (_, a) = pay_step(PayStage::Members { level: Some(1) }, PayEvent::MembersFound { ok: true, unknown: vec!["X".into()] });
    assert_eq!(reply_of(&a), "Could not find the following members: X");
    let (_, a) = pay_step(PayStage::Members { level: Some(1) }, PayEvent::MembersFound { ok: false, unknown: vec![] });
    assert_eq!(reply_of(&a), "Failed to find members");
    let (_, a) = pay_step(PayStage::Schedule { level: None }, PayEvent::ScheduleFound { found: true });
    assert!(matches!(a, PayAction::Abort));
    let (_, a) = pay_step(PayStage::Schedule { level: Some(1) }, PayEvent::ScheduleFound { found: false });
    assert_eq!(reply_of(&a), "Failed to find scheduled date");
    let (_, a) = pay_step(PayStage::Recorded, PayEvent::ReputationRecorded { ok: false });
    assert_eq!(reply_of(&a), "Failed to set reputation");
    let (_, a) = pay_step(PayStage::Payment, PayEvent::PaymentChosen { ok: false });
    assert_eq!(reply_of(&a), "Failed to get payment type");
    let (s, a) = pay_step(PayStage::Confirm, PayEvent::Confirmed { answer: Confirmation::No });
    assert_eq!(s, PayStage::Done);
    assert!(matches!(a, PayAction::Finish));
    let (_, a) = pay_step(PayStage::Paying, PayEvent::Paid { ok: false });
    assert_eq!(reply_of(&a), "Failed to pay mission");
    let (s, a) = pay_step(PayStage::Confirm, PayEvent::Paid { ok: true });
    assert_eq!(s, PayStage::Done);
    assert!(matches!(a, PayAction::Finish));
}

#[test]
fn payment_texts() {
    assert_eq!(confirm_prompt("x=1"), "```x=1```");
    assert_eq!(paid_reply("x=1"), ":white_check_mark: **Paid**\n```x=1```");
    assert_eq!(
        contractors_paid(&vec![("A".into(), 1), ("B".into(), 2)], &vec!["Zed".into()], "m"),
        "Contractors Paid: <@1>, <@2>, Zed\n```m```"
    );
    assert_eq!(report_log("report", "m"), "```ansireport\n\nm```");
}

#[test]
fn report_checks() {
    let (s, a) = check_step(CheckStage::Start, CheckEvent::Posted { content: "hello".into(), bot: false });
    assert_eq!((s, a.work), (CheckStage::Done, CheckWork::Finish));
    let (s, a) = check_step(CheckStage::Start, CheckEvent::Posted { content: "```x```".into(), bot: true });
    assert_eq!((s, a.work), (CheckStage::Done, CheckWork::Finish));
    let (s, a) = check_step(CheckStage::Start, CheckEvent::Posted { content: "```report".into(), bot: false });
    assert_eq!((s, a.work), (CheckStage::Report, CheckWork::Parse));
    let (_, a) = check_step(CheckStage::Report, CheckEvent::Parsed { error: Some("e".into()), contract: true });
    assert_eq!(a.replies, vec![":confused: I couldn't parse that AAR. Please make sure you're using the template. \n > e"]);
    let (s, _) = check_step(CheckStage::Report, CheckEvent::Parsed { error: None, contract: false });
    assert_eq!(s, CheckStage::Schedule { contract: false });
    let (s, a) = check_step(s, CheckEvent::ScheduleLookedUp { lookup: ScheduleLookup::Failed });
    assert_eq!((s, a.work), (CheckStage::Members, CheckWork::FindMembers));
    assert!(a.replies[0].contains("non-contract mission"));
    let (s, a) = check_step(s, CheckEvent::MembersFound { found: Some((2, vec!["Q".into()])) });
    assert_eq!(s, CheckStage::Done);
    assert_eq!(a.replies, vec!["Could not find the following members: Q", "Found 2 members"]);
    let (s, a) = check_step(CheckStage::Schedule { contract: true }, CheckEvent::ScheduleLookedUp { lookup: ScheduleLookup::Found });
    assert_eq!((s, a.work), (CheckStage::Contractors, CheckWork::CheckContractors));
    let (s, a) = check_step(s, CheckEvent::ContractorsChecked { error: None });
    assert_eq!((s, a.work), (CheckStage::Members, CheckWork::LinkAndFindMembers));
    assert_eq!(a.replies, vec![":white_check_mark: AAR Valid!"]);
    let (_, a) = check_step(CheckStage::Schedule { contract: true }, CheckEvent::ScheduleLookedUp { lookup: ScheduleLookup::Missing });
    assert_eq!(a.replies, vec![":confused: I couldn't find that mission on that date. Double check the date and mission name."]);
    let (_, a) = check_step(CheckStage::Members, CheckEvent::MembersFound { found: None });
    assert_eq!(a.replies, vec!["Failed to find members"]);
}
