use synixe_bot::commands::{
    bank_amount, bank_log, bank_subcommand, certifications_subcommand, company_balance_reply, fine_amount, fine_notice,
    fine_reason, fine_refusal, fine_reply, kit_claimed_audit, kit_cooldown_audit,
    kit_cooldown_reply, kit_on_cooldown, member_balance_reply, mission_change_reply,
    mission_id_refusal, mission_search_reply, not_notified, reputation_delta, reputation_reply,
    reputation_subcommand, requested_by, reset_subcommand, schedule_subcommand, single_subcommand,
    spending_heading,
    survey_button_id, survey_of_button, survey_search, transfer_notice, transfer_refusal,
    transfer_reply, Subcommand,
};
use synixe_bot::handler::CommandRoute;

#[test]
fn subcommands() {
    assert_eq!(bank_subcommand("fine"), Some(Subcommand::BankFine));
    assert_eq!(bank_subcommand("candlestick"), Some(Subcommand::BankCandlestick));
    assert_eq!(bank_subcommand("loan"), None);
    assert_eq!(reputation_subcommand("subtract"), Some(Subcommand::ReputationSubtract));
    assert_eq!(single_subcommand(CommandRoute::Missions, "load"), Some(Subcommand::MissionsLoad));
    assert_eq!(single_subcommand(CommandRoute::Docker, "restart"), Some(Subcommand::DockerRestart));
    assert_eq!(single_subcommand(CommandRoute::Surveys, "post"), Some(Subcommand::SurveysPost));
    assert_eq!(single_subcommand(CommandRoute::Docker, "load"), None);
    assert_eq!(reset_subcommand("kit"), Some(Subcommand::ResetKit));
    assert_eq!(reset_subcommand("kits"), None);
}

#[test]
fn bank_texts() {
    assert_eq!(company_balance_reply(9, "$1,000"), "<@9> has:\n```Cash: $1,000\n```");
    assert_eq!(
        member_balance_reply(5, "$1", "$2", "$3", "$6"),
        "<@5> has:\n```Cash:      $1\nLocker:    $2\nLoadout:   $3\nNet Worth: $6```"
    );
    assert_eq!(transfer_refusal(true, true, None, false), Some("I don't accept bribes"));
    assert_eq!(transfer_refusal(false, true, None, false), Some("You can't transfer money to a bot"));
    assert_eq!(transfer_refusal(false, false, None, true), Some("Invalid amount"));
    assert_eq!(transfer_refusal(false, false, Some(5), false), Some("Invalid reason"));
    assert_eq!(transfer_refusal(false, false, Some(5), true), None);
    assert_eq!(fine_refusal(true, Some(1), true), Some("You can't fine a bot"));
    assert_eq!(fine_refusal(false, None, true), Some("Invalid amount"));
    assert_eq!(fine_refusal(false, Some(1), false), Some("Invalid reason"));
    assert_eq!(fine_refusal(false, Some(1), true), None);
    assert_eq!(bank_amount(100), 100);
    assert_eq!(bank_amount(4_294_967_296 + 7), 7);
    assert_eq!(fine_amount(250), -250);
    assert_eq!(fine_reason(3, "late"), "fine from 3: late");
    assert_eq!(transfer_reply("$5", 2), "Transferred $5 to <@2>");
    assert_eq!(fine_reply("$5", 2), "Delivered a fine of $5 to <@2>.");
    assert_eq!(bank_log(false, 1, 2, "$5", "rent"), "<@1> transferred <@2> $5\n> rent");
    assert_eq!(bank_log(true, 1, 2, "$5", "rent"), "<@1> fined <@2> $5\n> rent");
    assert_eq!(transfer_notice(1, "$5", "rent"), "<@1> transferred you $5\n> rent");
    assert_eq!(fine_notice("$5", "rent"), "You were fined $5\n> rent");
    assert_eq!(not_notified("Transferred $5 to <@2>"), "Transferred $5 to <@2>, but I wasn't able to notify them");
    assert_eq!(spending_heading(4), "Spending for <@4>:\n");
}

#[test]
fn reputation_texts() {
    assert_eq!(reputation_delta(10, true), 10);
    assert_eq!(reputation_delta(10, false), -10);
    assert_eq!(reputation_reply(-10), "Updated -10 reputation");
}

#[test]
fn mission_loading() {
    assert_eq!(mission_id_refusal("$SUBCON$"), Some("Mission ID cannot start with `$`"));
    assert_eq!(mission_id_refusal("CO30"), None);
    assert_eq!(mission_search_reply(1, "CO30"), None);
    assert_eq!(mission_search_reply(0, "CO30"), Some("Found 0 missions matching `CO30`".to_string()));
    assert_eq!(mission_search_reply(3, "CO"), Some("Found 3 missions matching `CO`".to_string()));
    assert_eq!(requested_by(false, 8), "Loaded by <@8>");
    assert_eq!(requested_by(true, 8), "Restarted by <@8>");
    assert_eq!(mission_change_reply(11), "Mission change requested. Check <#11>");
}

#[test]
fn reset_kits() {
    assert!(kit_on_cooldown(Some(Some(false))));
    assert!(!kit_on_cooldown(Some(Some(true))));
    assert!(!kit_on_cooldown(None));
    assert_eq!(kit_cooldown_reply(None), "Only one reset kit can be claimed every 14 days.");
    assert_eq!(
        kit_cooldown_reply(Some(1700)),
        "Only one reset kit can be claimed every 14 days. Your last claim was at <t:1700:F> (<t:1700:R>)"
    );
    assert_eq!(
        kit_cooldown_audit(4, 1700),
        "Member <@4> attempted to claim a reset kit but is on cooldown. Last claim was at <t:1700:F> (<t:1700:R>)"
    );
    assert_eq!(kit_claimed_audit(4, "kit-1"), "Member <@4> claimed reset kit for first kit kit-1");
}

#[test]
fn surveys() {
    assert_eq!(survey_search(""), None);
    assert_eq!(survey_search("feedback"), Some("feedback".to_string()));
    assert_eq!(survey_button_id("abc"), "survey_submit:abc");
    assert_eq!(survey_of_button("survey_submit:abc"), Some("abc".to_string()));
    assert_eq!(survey_of_button("rsvp_yes"), None);
}

#[test]
fn schedule_and_certification_subcommands() {
    assert_eq!(schedule_subcommand("new"), Some(Subcommand::ScheduleNew));
    assert_eq!(schedule_subcommand("subcon"), Some(Subcommand::ScheduleSubcon));
    assert_eq!(schedule_subcommand("upcoming"), Some(Subcommand::ScheduleUpcoming));
    assert_eq!(schedule_subcommand("remove"), Some(Subcommand::ScheduleRemove));
    assert_eq!(schedule_subcommand("post"), Some(Subcommand::SchedulePost));
    assert_eq!(schedule_subcommand("Post"), None);
    assert_eq!(certifications_subcommand("trial"), Some(Subcommand::CertificationsTrial));
    assert_eq!(certifications_subcommand("view"), Some(Subcommand::CertificationsView));
    assert_eq!(certifications_subcommand("list"), Some(Subcommand::CertificationsList));
    assert_eq!(certifications_subcommand("available"), Some(Subcommand::CertificationsAvailable));
    assert_eq!(certifications_subcommand("new"), None);
}
