//! The decisions and replies of the smaller slash commands: bank,
//! reputation, missions, docker, reset and surveys. Amounts of money come
//! in already formatted, as the bank shows them.
use vstd::prelude::*;

use crate::text::push_lit;

use crate::handler::same_text;
use crate::text::{chars_of, decimal, int_text, push_chars, string_of};

verus! {


/// A subcommand of the bot's smaller commands.
#[derive(Clone, Copy, Debug, PartialEq, Eq, Structural)]
pub enum Subcommand {
    BankBalance,
    BankTransfer,
    BankFine,
    BankSpent,
    BankCandlestick,
    ReputationView,
    ReputationAdd,
    ReputationSubtract,
    MissionsLoad,
    DockerRestart,
    ResetKit,
    SurveysPost,
    ScheduleNew,
    ScheduleSubcon,
    ScheduleUpcoming,
    ScheduleRemove,
    SchedulePost,
    CertificationsTrial,
    CertificationsView,
    CertificationsList,
    CertificationsAvailable,
}

/// The subcommand `name` of the bank command, if it is one.
pub open spec fn bank_subcommand_spec(name: Seq<char>) -> Option<Subcommand> {
    if name == "balance"@ {
        Some(Subcommand::BankBalance)
    } else if name == "transfer"@ {
        Some(Subcommand::BankTransfer)
    } else if name == "fine"@ {
        Some(Subcommand::BankFine)
    } else if name == "spent"@ {
        Some(Subcommand::BankSpent)
    } else if name == "candlestick"@ {
        Some(Subcommand::BankCandlestick)
    } else {
        None
    }
}

/// The subcommand `name` of the bank command (see `bank_subcommand_spec`).
pub fn bank_subcommand(name: &str) -> (r: Option<Subcommand>)
    ensures
        r == bank_subcommand_spec(name@),
{
    if same_text(name, "balance") {
        Some(Subcommand::BankBalance)
    } else if same_text(name, "transfer") {
        Some(Subcommand::BankTransfer)
    } else if same_text(name, "fine") {
        Some(Subcommand::BankFine)
    } else if same_text(name, "spent") {
        Some(Subcommand::BankSpent)
    } else if same_text(name, "candlestick") {
        Some(Subcommand::BankCandlestick)
    } else {
        None
    }
}

/// The subcommand `name` of the reputation command, if it is one.
pub open spec fn reputation_subcommand_spec(name: Seq<char>) -> Option<Subcommand> {
    if name == "view"@ {
        Some(Subcommand::ReputationView)
    } else if name == "add"@ {
        Some(Subcommand::ReputationAdd)
    } else if name == "subtract"@ {
        Some(Subcommand::ReputationSubtract)
    } else {
        None
    }
}

/// The subcommand `name` of the reputation command (see `reputation_subcommand_spec`).
pub fn reputation_subcommand(name: &str) -> (r: Option<Subcommand>)
    ensures
        r == reputation_subcommand_spec(name@),
{
    if same_text(name, "view") {
        Some(Subcommand::ReputationView)
    } else if same_text(name, "add") {
        Some(Subcommand::ReputationAdd)
    } else if same_text(name, "subtract") {
        Some(Subcommand::ReputationSubtract)
    } else {
        None
    }
}

/// The subcommand `name` of the commands with a single subcommand: `load`
/// of missions, `restart` of docker, `kit` of reset, `post` of surveys.
pub open spec fn single_subcommand_spec(command: crate::handler::CommandRoute, name: Seq<char>) -> Option<
    Subcommand,
> {
    match command {
        crate::handler::CommandRoute::Missions => if name == "load"@ {
            Some(Subcommand::MissionsLoad)
        } else {
            None
        },
        crate::handler::CommandRoute::Docker => if name == "restart"@ {
            Some(Subcommand::DockerRestart)
        } else {
            None
        },
        crate::handler::CommandRoute::Surveys => if name == "post"@ {
            Some(Subcommand::SurveysPost)
        } else {
            None
        },
        _ => None,
    }
}

/// The subcommand of a command with a single one (see `single_subcommand_spec`).
pub fn single_subcommand(command: crate::handler::CommandRoute, name: &str) -> (r: Option<Subcommand>)
    ensures
        r == single_subcommand_spec(command, name@),
{
    match command {
        crate::handler::CommandRoute::Missions => if same_text(name, "load") {
            Some(Subcommand::MissionsLoad)
        } else {
            None
        },
        crate::handler::CommandRoute::Docker => if same_text(name, "restart") {
            Some(Subcommand::DockerRestart)
        } else {
            None
        },
        crate::handler::CommandRoute::Surveys => if same_text(name, "post") {
            Some(Subcommand::SurveysPost)
        } else {
            None
        },
        _ => None,
    }
}

/// The subcommand `name` of the schedule command, if it is one.
pub open spec fn schedule_subcommand_spec(name: Seq<char>) -> Option<Subcommand> {
    if name == "new"@ {
        Some(Subcommand::ScheduleNew)
    } else if name == "subcon"@ {
        Some(Subcommand::ScheduleSubcon)
    } else if name == "upcoming"@ {
        Some(Subcommand::ScheduleUpcoming)
    } else if name == "remove"@ {
        Some(Subcommand::ScheduleRemove)
    } else if name == "post"@ {
        Some(Subcommand::SchedulePost)
    } else {
        None
    }
}

/// The subcommand `name` of the schedule command (see `schedule_subcommand_spec`).
pub fn schedule_subcommand(name: &str) -> (r: Option<Subcommand>)
    ensures
        r == schedule_subcommand_spec(name@),
{
    if same_text(name, "new") {
        Some(Subcommand::ScheduleNew)
    } else if same_text(name, "subcon") {
        Some(Subcommand::ScheduleSubcon)
    } else if same_text(name, "upcoming") {
        Some(Subcommand::ScheduleUpcoming)
    } else if same_text(name, "remove") {
        Some(Subcommand::ScheduleRemove)
    } else if same_text(name, "post") {
        Some(Subcommand::SchedulePost)
    } else {
        None
    }
}

/// The subcommand `name` of the certifications command, if it is one.
pub open spec fn certifications_subcommand_spec(name: Seq<char>) -> Option<Subcommand> {
    if name == "trial"@ {
        Some(Subcommand::CertificationsTrial)
    } else if name == "view"@ {
        Some(Subcommand::CertificationsView)
    } else if name == "list"@ {
        Some(Subcommand::CertificationsList)
    } else if name == "available"@ {
        Some(Subcommand::CertificationsAvailable)
    } else {
        None
    }
}

/// The subcommand `name` of the certifications command (see
/// `certifications_subcommand_spec`).
pub fn certifications_subcommand(name: &str) -> (r: Option<Subcommand>)
    ensures
        r == certifications_subcommand_spec(name@),
{
    if same_text(name, "trial") {
        Some(Subcommand::CertificationsTrial)
    } else if same_text(name, "view") {
        Some(Subcommand::CertificationsView)
    } else if same_text(name, "list") {
        Some(Subcommand::CertificationsList)
    } else if same_text(name, "available") {
        Some(Subcommand::CertificationsAvailable)
    } else {
        None
    }
}

/// The subcommand `name` of the reset command: only `kit`.
pub fn reset_subcommand(name: &str) -> (r: Option<Subcommand>)
    ensures
        r is Some <==> name@ == "kit"@,
        r matches Some(s) ==> s == Subcommand::ResetKit,
{
    if same_text(name, "kit") {
        Some(Subcommand::ResetKit)
    } else {
        None
    }
}

/// The balance of the company's account, as the bank command shows it.
pub fn company_balance_reply(company: u64, cash: &str) -> (r: String)
    ensures
        r@ == "<@"@ + decimal(company as nat) + "> has:\n```Cash: "@ + cash@ + "\n```"@,
{
    let mut r = String::new();
    push_lit(&mut r, "<@");
    crate::text::push_decimal(&mut r, company);
    push_lit(&mut r, "> has:\n```Cash: ");
    push_lit(&mut r, cash);
    push_lit(&mut r, "\n```");
    r
}

/// A member's balances, as the bank command shows them.
pub fn member_balance_reply(member: u64, cash: &str, locker: &str, loadout: &str, worth: &str) -> (r:
    String)
    ensures
        r@ == "<@"@ + decimal(member as nat) + "> has:\n```Cash:      "@ + cash@ + "\nLocker:    "@
            + locker@ + "\nLoadout:   "@ + loadout@ + "\nNet Worth: "@ + worth@ + "```"@,
{
    let mut r = String::new();
    push_lit(&mut r, "<@");
    crate::text::push_decimal(&mut r, member);
    push_lit(&mut r, "> has:\n```Cash:      ");
    push_lit(&mut r, cash);
    push_lit(&mut r, "\nLocker:    ");
    push_lit(&mut r, locker);
    push_lit(&mut r, "\nLoadout:   ");
    push_lit(&mut r, loadout);
    push_lit(&mut r, "\nNet Worth: ");
    push_lit(&mut r, worth);
    push_lit(&mut r, "```");
    r
}

/// Why a transfer is refused, checked in this order: money sent to the
/// company, then (after the permission check) to a bot, without an amount,
/// without a reason; `None` when it goes ahead.
pub open spec fn transfer_refusal_spec(
    to_company: bool,
    to_bot: bool,
    amount: Option<i64>,
    has_reason: bool,
) -> Option<Seq<char>> {
    if to_company {
        Some("I don't accept bribes"@)
    } else if to_bot {
        Some("You can't transfer money to a bot"@)
    } else if amount is None {
        Some("Invalid amount"@)
    } else if !has_reason {
        Some("Invalid reason"@)
    } else {
        None
    }
}

/// Why a transfer is refused (see `transfer_refusal_spec`).
pub fn transfer_refusal(to_company: bool, to_bot: bool, amount: Option<i64>, has_reason: bool) -> (r:
    Option<&'static str>)
    ensures
        r matches Some(t) ==> transfer_refusal_spec(to_company, to_bot, amount, has_reason) == Some(
            t@,
        ),
        r is None ==> transfer_refusal_spec(to_company, to_bot, amount, has_reason) is None,
{
    if to_company {
        Some("I don't accept bribes")
    } else if to_bot {
        Some("You can't transfer money to a bot")
    } else if amount.is_none() {
        Some("Invalid amount")
    } else if !has_reason {
        Some("Invalid reason")
    } else {
        None
    }
}

/// Why a fine is refused, checked in this order (after the staff check): a
/// bot fined, no amount, no reason; `None` when it goes ahead.
pub fn fine_refusal(to_bot: bool, amount: Option<i64>, has_reason: bool) -> (r: Option<&'static str>)
    ensures
        to_bot ==> (r matches Some(t) && t@ == "You can't fine a bot"@),
        !to_bot && amount is None ==> (r matches Some(t) && t@ == "Invalid amount"@),
        !to_bot && amount is Some && !has_reason ==> (r matches Some(t) && t@ == "Invalid reason"@),
        !to_bot && amount is Some && has_reason ==> r is None,
{
    if to_bot {
        Some("You can't fine a bot")
    } else if amount.is_none() {
        Some("Invalid amount")
    } else if !has_reason {
        Some("Invalid reason")
    } else {
        None
    }
}

/// The amount of a transfer as the bank records it: the option's value cut
/// to 32 bits.
pub fn bank_amount(amount: i64) -> (r: i32)
    ensures
        r == amount as i32,
{
    #[verifier::truncate]
    (amount as i32)
}

/// The deposit that records a fine: the option's value negated, cut to 32 bits.
pub fn fine_amount(amount: i64) -> (r: i32)
    requires
        amount != i64::MIN,
    ensures
        r == (-amount) as i32,
{
    #[verifier::truncate]
    ((-amount) as i32)
}

/// The reason recorded with a fine: who fined and why.
pub fn fine_reason(staff: u64, reason: &str) -> (r: String)
    ensures
        r@ == "fine from "@ + decimal(staff as nat) + ": "@ + reason@,
{
    let mut r = String::new();
    push_lit(&mut r, "fine from ");
    crate::text::push_decimal(&mut r, staff);
    push_lit(&mut r, ": ");
    push_lit(&mut r, reason);
    r
}

/// The reply to a transfer.
pub fn transfer_reply(amount: &str, target: u64) -> (r: String)
    ensures
        r@ == "Transferred "@ + amount@ + " to <@"@ + decimal(target as nat) + ">"@,
{
    let mut r = String::new();
    push_lit(&mut r, "Transferred ");
    push_lit(&mut r, amount);
    push_lit(&mut r, " to <@");
    crate::text::push_decimal(&mut r, target);
    push_lit(&mut r, ">");
    r
}

/// The reply to a fine.
pub fn fine_reply(amount: &str, target: u64) -> (r: String)
    ensures
        r@ == "Delivered a fine of "@ + amount@ + " to <@"@ + decimal(target as nat) + ">."@,
{
    let mut r = String::new();
    push_lit(&mut r, "Delivered a fine of ");
    push_lit(&mut r, amount);
    push_lit(&mut r, " to <@");
    crate::text::push_decimal(&mut r, target);
    push_lit(&mut r, ">.");
    r
}

/// The line logged for a transfer (`fined` false) or a fine (`fined` true).
pub fn bank_log(fined: bool, source: u64, target: u64, amount: &str, reason: &str) -> (r: String)
    ensures
        r@ == "<@"@ + decimal(source as nat) + if fined {
            "> fined <@"@
        } else {
            "> transferred <@"@
        } + decimal(target as nat) + "> "@ + amount@ + "\n> "@ + reason@,
{
    let mut r = String::new();
    push_lit(&mut r, "<@");
    crate::text::push_decimal(&mut r, source);
    if fined {
        push_lit(&mut r, "> fined <@");
    } else {
        push_lit(&mut r, "> transferred <@");
    }
    crate::text::push_decimal(&mut r, target);
    push_lit(&mut r, "> ");
    push_lit(&mut r, amount);
    push_lit(&mut r, "\n> ");
    push_lit(&mut r, reason);
    r
}

/// The message the receiver of a transfer gets.
pub fn transfer_notice(source: u64, amount: &str, reason: &str) -> (r: String)
    ensures
        r@ == "<@"@ + decimal(source as nat) + "> transferred you "@ + amount@ + "\n> "@ + reason@,
{
    let mut r = String::new();
    push_lit(&mut r, "<@");
    crate::text::push_decimal(&mut r, source);
    push_lit(&mut r, "> transferred you ");
    push_lit(&mut r, amount);
    push_lit(&mut r, "\n> ");
    push_lit(&mut r, reason);
    r
}

/// The message a fined member gets.
pub fn fine_notice(amount: &str, reason: &str) -> (r: String)
    ensures
        r@ == "You were fined "@ + amount@ + "\n> "@ + reason@,
{
    let mut r = String::new();
    push_lit(&mut r, "You were fined ");
    push_lit(&mut r, amount);
    push_lit(&mut r, "\n> ");
    push_lit(&mut r, reason);
    r
}

/// The reply when the member could not be told of a transfer or fine.
pub fn not_notified(reply: &str) -> (r: String)
    ensures
        r@ == reply@ + ", but I wasn't able to notify them"@,
{
    let mut r = String::new();
    push_lit(&mut r, reply);
    push_lit(&mut r, ", but I wasn't able to notify them");
    r
}

/// The heading of a member's spending report.
pub fn spending_heading(member: u64) -> (r: String)
    ensures
        r@ == "Spending for <@"@ + decimal(member as nat) + ">:\n"@,
{
    let mut r = String::new();
    push_lit(&mut r, "Spending for <@");
    crate::text::push_decimal(&mut r, member);
    push_lit(&mut r, ">:\n");
    r
}

/// The change of reputation a staff member asks for: the amount cut to 32
/// bits, negated for a subtraction.
pub open spec fn reputation_delta_spec(amount: i64, add: bool) -> int {
    if add {
        (amount as i32) as int
    } else {
        -((amount as i32) as int)
    }
}

/// The change of reputation a staff member asks for (see `reputation_delta_spec`).
pub fn reputation_delta(amount: i64, add: bool) -> (r: i32)
    requires
        add || amount as i32 != i32::MIN,
    ensures
        r == reputation_delta_spec(amount, add),
{
    let cut = bank_amount(amount);
    if add {
        cut
    } else {
        -cut
    }
}

/// The reply once reputation was updated.
pub fn reputation_reply(delta: i32) -> (r: String)
    ensures
        r@ == "Updated "@ + int_text(delta as int) + " reputation"@,
{
    let mut r = String::new();
    push_lit(&mut r, "Updated ");
    crate::text::push_int(&mut r, delta as i64);
    push_lit(&mut r, " reputation");
    r
}

/// Why a mission cannot be loaded by this id: ids starting with `$` are refused.
pub fn mission_id_refusal(id: &str) -> (r: Option<&'static str>)
    ensures
        r is Some <==> "$"@.is_prefix_of(id@),
        r matches Some(t) ==> t@ == "Mission ID cannot start with `$`"@,
{
    if crate::text::starts_with_chars(&chars_of(id), &chars_of("$")) {
        Some("Mission ID cannot start with `$`")
    } else {
        None
    }
}

/// The reply when the search for a mission id does not find exactly one
/// mission; `None` when it does.
pub fn mission_search_reply(found: usize, id: &str) -> (r: Option<String>)
    ensures
        found == 1 <==> r is None,
        r matches Some(t) ==> t@ == "Found "@ + decimal(found as nat) + " missions matching `"@ + id@
            + "`"@,
{
    if found == 1 {
        None
    } else {
        let mut r = String::new();
        push_lit(&mut r, "Found ");
        crate::text::push_decimal(&mut r, found as u64);
        push_lit(&mut r, " missions matching `");
        push_lit(&mut r, id);
        push_lit(&mut r, "`");
        Some(r)
    }
}

/// The reason recorded with a change of mission or a server restart: who
/// asked for it.
pub fn requested_by(restart: bool, user: u64) -> (r: String)
    ensures
        r@ == if restart {
            "Restarted by <@"@
        } else {
            "Loaded by <@"@
        } + decimal(user as nat) + ">"@,
{
    let mut r = String::new();
    if restart {
        push_lit(&mut r, "Restarted by <@");
    } else {
        push_lit(&mut r, "Loaded by <@");
    }
    crate::text::push_decimal(&mut r, user);
    push_lit(&mut r, ">");
    r
}

/// The reply once a change of mission was requested: look in the log channel.
pub fn mission_change_reply(log: u64) -> (r: String)
    ensures
        r@ == "Mission change requested. Check <#"@ + decimal(log as nat) + ">"@,
{
    let mut r = String::new();
    push_lit(&mut r, "Mission change requested. Check <#");
    crate::text::push_decimal(&mut r, log);
    push_lit(&mut r, ">");
    r
}

/// The reply when a reset kit is refused for the cooldown, with the time of
/// the last claim where it is known.
pub fn kit_cooldown_reply(last_claim: Option<i64>) -> (r: String)
    ensures
        last_claim is None ==> r@ == "Only one reset kit can be claimed every 14 days."@,
        last_claim matches Some(t) ==> r@
            == "Only one reset kit can be claimed every 14 days. Your last claim was at <t:"@
            + int_text(t as int) + ":F> (<t:"@ + int_text(t as int) + ":R>)"@,
{
    let mut r = String::new();
    match last_claim {
        None => push_lit(&mut r, "Only one reset kit can be claimed every 14 days."),
        Some(t) => {
            push_lit(&mut r, "Only one reset kit can be claimed every 14 days. Your last claim was at <t:");
            crate::text::push_int(&mut r, t);
            push_lit(&mut r, ":F> (<t:");
            crate::text::push_int(&mut r, t);
            push_lit(&mut r, ":R>)");
        },
    }
    r
}

/// The audit line when a member on cooldown tries to claim a reset kit.
pub fn kit_cooldown_audit(member: u64, last_claim: i64) -> (r: String)
    ensures
        r@ == "Member <@"@ + decimal(member as nat)
            + "> attempted to claim a reset kit but is on cooldown. Last claim was at <t:"@
            + int_text(last_claim as int) + ":F> (<t:"@ + int_text(last_claim as int) + ":R>)"@,
{
    let mut r = String::new();
    push_lit(&mut r, "Member <@");
    crate::text::push_decimal(&mut r, member);
    push_lit(&mut r, "> attempted to claim a reset kit but is on cooldown. Last claim was at <t:");
    crate::text::push_int(&mut r, last_claim);
    push_lit(&mut r, ":F> (<t:");
    crate::text::push_int(&mut r, last_claim);
    push_lit(&mut r, ":R>)");
    r
}

/// The audit line when a member claimed a reset kit.
pub fn kit_claimed_audit(member: u64, first_kit: &str) -> (r: String)
    ensures
        r@ == "Member <@"@ + decimal(member as nat) + "> claimed reset kit for first kit "@
            + first_kit@,
{
    let mut r = String::new();
    push_lit(&mut r, "Member <@");
    crate::text::push_decimal(&mut r, member);
    push_lit(&mut r, "> claimed reset kit for first kit ");
    push_lit(&mut r, first_kit);
    r
}

/// A member may claim a reset kit unless the bank said they cannot.
pub fn kit_on_cooldown(can_claim: Option<Option<bool>>) -> (r: bool)
    ensures
        r <==> can_claim == Some(Some(false)),
{
    match can_claim {
        Some(Some(false)) => true,
        _ => false,
    }
}

/// What a survey search looks for: the typed title, or every survey when
/// nothing was typed.
pub fn survey_search(typed: &str) -> (r: Option<String>)
    ensures
        typed@.len() == 0 ==> r is None,
        typed@.len() > 0 ==> (r matches Some(t) && t@ == typed@),
{
    let v = chars_of(typed);
    if v.len() == 0 {
        None
    } else {
        Some(string_of(&v))
    }
}

/// The id of the button that submits an answer to a survey.
pub fn survey_button_id(survey: &str) -> (r: String)
    ensures
        r@ == "survey_submit:"@ + survey@,
{
    let mut r = String::new();
    push_lit(&mut r, "survey_submit:");
    push_lit(&mut r, survey);
    r
}

/// The survey a submit button belongs to: its id after `survey_submit:`;
/// `None` for another button.
pub fn survey_of_button(id: &str) -> (r: Option<String>)
    ensures
        r is Some <==> "survey_submit:"@.is_prefix_of(id@),
        r matches Some(s) ==> "survey_submit:"@ + s@ == id@,
{
    let v = chars_of(id);
    let p = chars_of("survey_submit:");
    if crate::text::starts_with_chars(&v, &p) {
        let mut rest: Vec<char> = Vec::new();
        let mut k: usize = p.len();
        while k < v.len()
            invariant
                p.len() <= k <= v.len(),
                p@.is_prefix_of(v@),
                rest@ == v@.subrange(p.len() as int, k as int),
            decreases v.len() - k,
        {
            rest.push(v[k]);
            assert(v@.subrange(p.len() as int, k + 1) == v@.subrange(p.len() as int, k as int).push(
                v@[k as int],
            ));
            k += 1;
        }
        assert(p@ + rest@ == v@);
        Some(string_of(&rest))
    } else {
        None
    }
}

/// Every subcommand the bank command registers goes to its own handler,
/// and no other name does.
pub proof fn law_bank_subcommands(name: Seq<char>)
    ensures
        bank_subcommand_spec("balance"@) == Some(Subcommand::BankBalance),
        bank_subcommand_spec("transfer"@) == Some(Subcommand::BankTransfer),
        bank_subcommand_spec("fine"@) == Some(Subcommand::BankFine),
        bank_subcommand_spec("spent"@) == Some(Subcommand::BankSpent),
        bank_subcommand_spec("candlestick"@) == Some(Subcommand::BankCandlestick),
        bank_subcommand_spec(name) is None <==> (name != "balance"@ && name != "transfer"@ && name != "fine"@ && name != "spent"@ && name != "candlestick"@),
{
    reveal_strlit("balance");
    assert("balance"@.len() == 7 && "balance"@[0] == 'b' && "balance"@[1] == 'a' && "balance"@[2] == 'l');
    reveal_strlit("transfer");
    assert("transfer"@.len() == 8 && "transfer"@[0] == 't' && "transfer"@[1] == 'r' && "transfer"@[2] == 'a');
    reveal_strlit("fine");
    assert("fine"@.len() == 4 && "fine"@[0] == 'f' && "fine"@[1] == 'i' && "fine"@[2] == 'n');
    reveal_strlit("spent");
    assert("spent"@.len() == 5 && "spent"@[0] == 's' && "spent"@[1] == 'p' && "spent"@[2] == 'e');
    reveal_strlit("candlestick");
    assert("candlestick"@.len() == 11 && "candlestick"@[0] == 'c' && "candlestick"@[1] == 'a' && "candlestick"@[2] == 'n');
}

/// Every subcommand the reputation command registers goes to its own handler,
/// and no other name does.
pub proof fn law_reputation_subcommands(name: Seq<char>)
    ensures
        reputation_subcommand_spec("view"@) == Some(Subcommand::ReputationView),
        reputation_subcommand_spec("add"@) == Some(Subcommand::ReputationAdd),
        reputation_subcommand_spec("subtract"@) == Some(Subcommand::ReputationSubtract),
        reputation_subcommand_spec(name) is None <==> (name != "view"@ && name != "add"@ && name != "subtract"@),
{
    reveal_strlit("view");
    assert("view"@.len() == 4 && "view"@[0] == 'v' && "view"@[1] == 'i' && "view"@[2] == 'e');
    reveal_strlit("add");
    assert("add"@.len() == 3 && "add"@[0] == 'a' && "add"@[1] == 'd' && "add"@[2] == 'd');
    reveal_strlit("subtract");
    assert("subtract"@.len() == 8 && "subtract"@[0] == 's' && "subtract"@[1] == 'u' && "subtract"@[2] == 'b');
}

/// Every subcommand the schedule command registers goes to its own handler,
/// and no other name does.
pub proof fn law_schedule_subcommands(name: Seq<char>)
    ensures
        schedule_subcommand_spec("new"@) == Some(Subcommand::ScheduleNew),
        schedule_subcommand_spec("subcon"@) == Some(Subcommand::ScheduleSubcon),
        schedule_subcommand_spec("upcoming"@) == Some(Subcommand::ScheduleUpcoming),
        schedule_subcommand_spec("remove"@) == Some(Subcommand::ScheduleRemove),
        schedule_subcommand_spec("post"@) == Some(Subcommand::SchedulePost),
        schedule_subcommand_spec(name) is None <==> (name != "new"@ && name != "subcon"@ && name != "upcoming"@ && name != "remove"@ && name != "post"@),
{
    reveal_strlit("new");
    assert("new"@.len() == 3 && "new"@[0] == 'n' && "new"@[1] == 'e' && "new"@[2] == 'w');
    reveal_strlit("subcon");
    assert("subcon"@.len() == 6 && "subcon"@[0] == 's' && "subcon"@[1] == 'u' && "subcon"@[2] == 'b');
    reveal_strlit("upcoming");
    assert("upcoming"@.len() == 8 && "upcoming"@[0] == 'u' && "upcoming"@[1] == 'p' && "upcoming"@[2] == 'c');
    reveal_strlit("remove");
    assert("remove"@.len() == 6 && "remove"@[0] == 'r' && "remove"@[1] == 'e' && "remove"@[2] == 'm');
    reveal_strlit("post");
    assert("post"@.len() == 4 && "post"@[0] == 'p' && "post"@[1] == 'o' && "post"@[2] == 's');
}

/// Every subcommand the certifications command registers goes to its own handler,
/// and no other name does.
pub proof fn law_certifications_subcommands(name: Seq<char>)
    ensures
        certifications_subcommand_spec("trial"@) == Some(Subcommand::CertificationsTrial),
        certifications_subcommand_spec("view"@) == Some(Subcommand::CertificationsView),
        certifications_subcommand_spec("list"@) == Some(Subcommand::CertificationsList),
        certifications_subcommand_spec("available"@) == Some(Subcommand::CertificationsAvailable),
        certifications_subcommand_spec(name) is None <==> (name != "trial"@ && name != "view"@ && name != "list"@ && name != "available"@),
{
    reveal_strlit("trial");
    assert("trial"@.len() == 5 && "trial"@[0] == 't' && "trial"@[1] == 'r' && "trial"@[2] == 'i');
    reveal_strlit("view");
    assert("view"@.len() == 4 && "view"@[0] == 'v' && "view"@[1] == 'i' && "view"@[2] == 'e');
    reveal_strlit("list");
    assert("list"@.len() == 4 && "list"@[0] == 'l' && "list"@[1] == 'i' && "list"@[2] == 's');
    reveal_strlit("available");
    assert("available"@.len() == 9 && "available"@[0] == 'a' && "available"@[1] == 'v' && "available"@[2] == 'a');
}

/// The single subcommands: `load` of missions, `restart` of docker and
/// `post` of surveys are routed; no other name, and nothing of another
/// command.
pub proof fn law_single_subcommands(command: crate::handler::CommandRoute, name: Seq<char>)
    ensures
        single_subcommand_spec(crate::handler::CommandRoute::Missions, "load"@) == Some(Subcommand::MissionsLoad),
        single_subcommand_spec(crate::handler::CommandRoute::Docker, "restart"@) == Some(Subcommand::DockerRestart),
        single_subcommand_spec(crate::handler::CommandRoute::Surveys, "post"@) == Some(Subcommand::SurveysPost),
        command == crate::handler::CommandRoute::Missions && name != "load"@ ==> single_subcommand_spec(command, name) is None,
        command == crate::handler::CommandRoute::Docker && name != "restart"@ ==> single_subcommand_spec(command, name) is None,
        command == crate::handler::CommandRoute::Surveys && name != "post"@ ==> single_subcommand_spec(command, name) is None,
        command != crate::handler::CommandRoute::Missions && command != crate::handler::CommandRoute::Docker
            && command != crate::handler::CommandRoute::Surveys ==> single_subcommand_spec(command, name) is None,
{
}

/// Staff add the amount asked for, or take it away, as a reputation change
/// of the same size: adding and subtracting one amount are opposite.
pub proof fn law_reputation_delta(amount: i64)
    requires
        1 <= amount <= i32::MAX,
    ensures
        reputation_delta_spec(amount, true) == amount,
        reputation_delta_spec(amount, false) == -amount,
        reputation_delta_spec(amount, true) + reputation_delta_spec(amount, false) == 0,
{
}

} // verus!
