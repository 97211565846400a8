use synixe_bot::bank::day_start;
use synixe_bot::certifications::{first_kit_step, trial_goes_ahead, FirstKitAction, FirstKitEvent, FirstKitStage};
use synixe_bot::tools::{timeout_step, TimeoutAction, TimeoutEvent};
use synixe_bot::briefing::{briefing_messages, BriefingParts};
use synixe_bot::garage::{spawn_step, spawn_stop_reply, SpawnAction, SpawnEvent, SpawnResult, SpawnStage, SpawnStop};
use synixe_bot::interaction::{
    permission_step, refusal_reply, reply_state, Confirmation, FollowupAction, InteractionKind,
    PermissionAction, PermissionEvent, PermissionStage, RoleDecision,
};
use synixe_bot::members::is_white;
use synixe_bot::schedule::{
    remove_step, rsvp_plan, start_year, RemoveAction, RemoveEvent, RemoveStage, Rsvp, RsvpButton, RsvpPlan,
};

#[test]
fn replies_defer_once_then_edit() {
    let mut s = reply_state(InteractionKind::Command, Some(true));
    let mut seen = Vec::new();
    for id in [11u64, 22, 33] {
        let defer = s.defer();
        if defer.is_some() {
            s.deferred();
        }
        let action = s.followup();
        if action == FollowupAction::Create {
            s.created(id);
        }
        seen.push((defer, action));
    }
    assert_eq!(
        seen,
        vec![
            (Some(false), FollowupAction::Create),
            (None, FollowupAction::Edit(11)),
            (None, FollowupAction::Edit(11)),
        ]
    );
}

#[test]
fn briefing_without_parts_posts_nothing() {
    let none = BriefingParts { situation: None, mission: None, objectives: None };
    assert_eq!(briefing_messages(&none, "contracts", "m"), Some(vec![]));
}

#[test]
fn briefing_sections_open_with_headings() {
    let parts = BriefingParts {
        situation: None,
        mission: Some("a < b\nline".into()),
        objectives: Some("<font color='#E3D310'>PRIMARY</font>\n## inner\ntext\n".into()),
    };
    let out = briefing_messages(&parts, "contracts", "m").unwrap();
    assert!(!out.is_empty());
    assert!(out[0].starts_with("## Mission"));
    assert!(out.iter().all(|s| s.starts_with("## ") && !s.ends_with('\n')));
}

#[test]
fn permission_runs_only_when_granted() {
    let start = PermissionStage::Start;
    assert_eq!(
        permission_step(start, PermissionEvent::Roles(RoleDecision::Allowed)),
        (PermissionStage::Allowed, PermissionAction::Run)
    );
    let (s, a) = permission_step(start, PermissionEvent::Roles(RoleDecision::Ask));
    assert_eq!((s, a), (PermissionStage::AskingMember, PermissionAction::AskMember));
    for c in [Confirmation::No, Confirmation::Timeout] {
        assert_eq!(
            permission_step(s, PermissionEvent::MemberAnswered(c)),
            (PermissionStage::Denied, PermissionAction::RefuseNotRequested)
        );
    }
    let (s, a) = permission_step(s, PermissionEvent::MemberAnswered(Confirmation::Yes));
    assert_eq!((s, a), (PermissionStage::Posting, PermissionAction::PostRequest));
    assert_eq!(
        permission_step(s, PermissionEvent::Posted(false)),
        (PermissionStage::Denied, PermissionAction::RefusePostFailed)
    );
    let (s, _) = permission_step(s, PermissionEvent::Posted(true));
    assert_eq!(s, PermissionStage::AwaitingStaff);
    assert_eq!(permission_step(s, PermissionEvent::StaffAnswered(Some(true))).1, PermissionAction::Run);
    assert_eq!(permission_step(s, PermissionEvent::StaffAnswered(Some(false))).1, PermissionAction::RefuseDenied);
    assert_eq!(permission_step(s, PermissionEvent::StaffAnswered(None)).1, PermissionAction::RefuseTimedOut);
    assert_eq!(
        permission_step(start, PermissionEvent::Posted(true)),
        (PermissionStage::Denied, PermissionAction::RefuseNoPermission)
    );
    assert_eq!(
        refusal_reply(PermissionAction::RefuseNoPermission),
        Some("You do not have permission to use this command.")
    );
    assert_eq!(refusal_reply(PermissionAction::RefuseTimedOut), Some("Didn't receive a response"));
    assert_eq!(refusal_reply(PermissionAction::RefuseDenied), Some("Denied"));
    assert_eq!(refusal_reply(PermissionAction::RefusePostFailed), Some("Failed to send request message."));
    assert_eq!(refusal_reply(PermissionAction::RefuseNotRequested), None);
}

#[test]
fn white_space_as_std_sees_it() {
    for n in 0u32..=0x10ffff {
        if let Some(c) = char::from_u32(n) {
            assert_eq!(is_white(c), c.is_whitespace(), "{n:#x}");
        }
    }
}

#[test]
fn mission_year_rolls_over() {
    assert_eq!(start_year(2024, false), Some(2024));
    assert_eq!(start_year(2024, true), Some(2025));
    assert_eq!(start_year(i32::MAX, true), None);
}

#[test]
fn spawning_steps() {
    let (s, c, a) = spawn_step(SpawnStage::FetchingInfo, 0, SpawnEvent::Info(true, true, true));
    assert_eq!((s, a), (SpawnStage::Pricing, SpawnAction::FetchAsset));
    assert_eq!(spawn_step(SpawnStage::FetchingInfo, 0, SpawnEvent::Info(true, false, true)).2, SpawnAction::Stop(SpawnStop::NoClass));
    let free = spawn_step(s, c, SpawnEvent::Priced(Some(0)));
    assert_eq!(free, (SpawnStage::Spawning, 0, SpawnAction::RequestSpawn));
    let (s2, c2, a2) = spawn_step(s, c, SpawnEvent::Priced(Some(250)));
    assert_eq!((s2, c2, a2), (SpawnStage::Confirming, 250, SpawnAction::Confirm(250)));
    assert_eq!(spawn_step(s2, c2, SpawnEvent::Confirmed(Confirmation::No)).2, SpawnAction::Stop(SpawnStop::Cancelled));
    let (s3, c3, _) = spawn_step(s2, c2, SpawnEvent::Confirmed(Confirmation::Yes));
    assert_eq!(spawn_step(s3, c3, SpawnEvent::Spawned(Some(SpawnResult::Yes))), (SpawnStage::Done, 250, SpawnAction::Record(250)));
    let stop = spawn_step(s3, c3, SpawnEvent::Spawned(Some(SpawnResult::AreaBlocked))).2;
    assert_eq!(stop, SpawnAction::Stop(SpawnStop::Refused(SpawnResult::AreaBlocked)));
    assert_eq!(spawn_stop_reply(SpawnStop::Refused(SpawnResult::AreaBlocked)), "Area blocked");
    assert_eq!(spawn_stop_reply(SpawnStop::Cancelled), "Spawn cancelled");
    assert_eq!(spawn_stop_reply(SpawnStop::AssetFailed), "Failed to fetch asset info");
}

#[test]
fn rsvp_plans() {
    assert_eq!(rsvp_plan(false, RsvpButton::Yes), RsvpPlan::MembersOnly);
    assert_eq!(rsvp_plan(true, RsvpButton::Yes), RsvpPlan::Record(Rsvp::Yes));
    assert_eq!(rsvp_plan(true, RsvpButton::No), RsvpPlan::AskReason(Rsvp::No));
    assert_eq!(rsvp_plan(true, RsvpButton::Unknown), RsvpPlan::Ignore);
}

#[test]
fn removal_steps() {
    assert_eq!(remove_step(RemoveStage::Choosing, RemoveEvent::Chosen(false)), (RemoveStage::Done, RemoveAction::Cancelled));
    let (s, _) = remove_step(RemoveStage::Choosing, RemoveEvent::Chosen(true));
    assert_eq!(remove_step(s, RemoveEvent::Confirmed(Confirmation::No)).1, RemoveAction::RemovalCancelled);
    assert_eq!(remove_step(s, RemoveEvent::Confirmed(Confirmation::Timeout)).1, RemoveAction::Finish);
    let (s, a) = remove_step(s, RemoveEvent::Confirmed(Confirmation::Yes));
    assert_eq!(a, RemoveAction::Unschedule);
    assert_eq!(remove_step(s, RemoveEvent::Unscheduled(true)).1, RemoveAction::DeletePost);
    assert_eq!(remove_step(s, RemoveEvent::Unscheduled(false)).1, RemoveAction::ReportFailed);
}

#[test]
fn days_start_at_utc_midnight() {
    assert_eq!(day_start(0), 0);
    assert_eq!(day_start(86399), 0);
    assert_eq!(day_start(86400), 86400);
    assert_eq!(day_start(1_700_000_000), 1_699_920_000);
    assert_eq!(day_start(-1), -86400);
    assert_eq!(day_start(-86400), -86400);
    assert_eq!(day_start(-86401), -172800);
}

#[test]
fn trials_go_ahead() {
    assert!(trial_goes_ahead(0, None));
    assert!(trial_goes_ahead(2, Some(Confirmation::Yes)));
    assert!(!trial_goes_ahead(1, Some(Confirmation::No)));
    assert!(!trial_goes_ahead(1, Some(Confirmation::Timeout)));
}

#[test]
fn first_kit_steps() {
    assert_eq!(first_kit_step(FirstKitStage::Counting, FirstKitEvent::Counted(true, None)), (FirstKitStage::Done, FirstKitAction::LogCountFailed));
    assert_eq!(first_kit_step(FirstKitStage::Counting, FirstKitEvent::Counted(false, Some(2))), (FirstKitStage::Done, FirstKitAction::Stop));
    assert_eq!(first_kit_step(FirstKitStage::Counting, FirstKitEvent::Counted(false, Some(1))), (FirstKitStage::Listing, FirstKitAction::ListKits));
    assert_eq!(first_kit_step(FirstKitStage::Counting, FirstKitEvent::Counted(false, None)), (FirstKitStage::Listing, FirstKitAction::ListKits));
    assert_eq!(first_kit_step(FirstKitStage::Listing, FirstKitEvent::Listed(Some(0))), (FirstKitStage::Done, FirstKitAction::Stop));
    assert_eq!(first_kit_step(FirstKitStage::Listing, FirstKitEvent::Listed(None)), (FirstKitStage::Done, FirstKitAction::Stop));
    assert_eq!(first_kit_step(FirstKitStage::Listing, FirstKitEvent::Listed(Some(1))), (FirstKitStage::GivingOnly, FirstKitAction::GiveOnly));
    assert_eq!(first_kit_step(FirstKitStage::GivingOnly, FirstKitEvent::Given(true)), (FirstKitStage::Done, FirstKitAction::ReplyGiven));
    assert_eq!(first_kit_step(FirstKitStage::GivingOnly, FirstKitEvent::Given(false)), (FirstKitStage::Done, FirstKitAction::ReplyGiveFailed));
    assert_eq!(first_kit_step(FirstKitStage::Listing, FirstKitEvent::Listed(Some(3))), (FirstKitStage::Selecting, FirstKitAction::AskTrainee));
    assert_eq!(first_kit_step(FirstKitStage::Selecting, FirstKitEvent::AskFailed), (FirstKitStage::Done, FirstKitAction::Stop));
    assert_eq!(first_kit_step(FirstKitStage::Selecting, FirstKitEvent::Chose(false)), (FirstKitStage::Done, FirstKitAction::TellTimedOut));
    assert_eq!(first_kit_step(FirstKitStage::Selecting, FirstKitEvent::Chose(true)), (FirstKitStage::GivingChosen, FirstKitAction::GiveChosen));
    assert_eq!(first_kit_step(FirstKitStage::GivingChosen, FirstKitEvent::Given(true)), (FirstKitStage::Done, FirstKitAction::ConfirmChosen));
    assert_eq!(first_kit_step(FirstKitStage::GivingChosen, FirstKitEvent::Given(false)), (FirstKitStage::Done, FirstKitAction::ReportChosenFailed));
}

#[test]
fn timeout_steps() {
    assert_eq!(timeout_step(TimeoutEvent::Missing), TimeoutAction::Skip);
    assert_eq!(timeout_step(TimeoutEvent::AlreadyTimedOut), TimeoutAction::Skip);
    assert_eq!(timeout_step(TimeoutEvent::Present), TimeoutAction::Apply);
    assert_eq!(timeout_step(TimeoutEvent::Applied(true)), TimeoutAction::Notify);
    assert_eq!(timeout_step(TimeoutEvent::Applied(false)), TimeoutAction::Fail);
}
