//! After-action reports: the contractors listed in one, the replies about
//! them, and the steps of paying a mission from its report.
use vstd::prelude::*;

use crate::text::push_lit;

use crate::briefing::lines_spec;
use crate::interaction::Confirmation;
use crate::text::{
    chars_of, decimal, int_text, join_spec, occurs_at, push_chars, string_of,
    trim_start_matches_spec, views,
};

verus! {

/// The first position at or after `i` where `p` occurs in `s`, or -1.
pub open spec fn index_from(s: Seq<char>, p: Seq<char>, i: int) -> int
    decreases s.len() + 1 - i,
{
    if i < 0 || i + p.len() > s.len() {
        -1
    } else if occurs_at(s, p, i) {
        i
    } else {
        index_from(s, p, i + 1)
    }
}

/// Facts about `index_from`.
pub proof fn lemma_index_from(s: Seq<char>, p: Seq<char>, i: int)
    requires
        0 <= i,
    ensures
        index_from(s, p, i) == -1 || (i <= index_from(s, p, i) && index_from(s, p, i) + p.len()
            <= s.len() && occurs_at(s, p, index_from(s, p, i))),
    decreases s.len() + 1 - i,
{
    if i + p.len() <= s.len() && !occurs_at(s, p, i) {
        lemma_index_from(s, p, i + 1);
    }
}

/// The pieces of `s` between the occurrences of the non-empty separator
/// `p`, scanning from the left, as std's `str::split` gives them.
pub open spec fn split_spec(s: Seq<char>, p: Seq<char>) -> Seq<Seq<char>>
    decreases s.len(),
{
    let k = index_from(s, p, 0);
    if p.len() == 0 || k < 0 {
        seq![s]
    } else {
        proof {
            lemma_index_from(s, p, 0);
        }
        seq![s.take(k)] + split_spec(s.skip(k + p.len()), p)
    }
}

fn sub_chars(s: &Vec<char>, a: usize, b: usize) -> (r: Vec<char>)
    requires
        a <= b <= s.len(),
    ensures
        r@ == s@.subrange(a as int, b as int),
{
    let mut r: Vec<char> = Vec::new();
    let mut k: usize = a;
    while k < b
        invariant
            a <= k <= b,
            b <= s.len(),
            r@ == s@.subrange(a as int, k as int),
        decreases b - k,
    {
        r.push(s[k]);
        assert(s@.subrange(a as int, k + 1) == s@.subrange(a as int, k as int).push(s@[k as int]));
        k += 1;
    }
    r
}

/// The pieces of `s` between the occurrences of `p` (see `split_spec`).
pub fn split_chars(s: &Vec<char>, p: &Vec<char>) -> (r: Vec<Vec<char>>)
    requires
        p.len() > 0,
    ensures
        r@.map_values(|v: Vec<char>| v@) == split_spec(s@, p@),
{
    let mut r: Vec<Vec<char>> = Vec::new();
    let mut start: usize = 0;
    let mut i: usize = 0;
    assert(s@.skip(0) == s@);
    while p.len() <= s.len() && i <= s.len() - p.len()
        invariant
            p.len() > 0,
            start <= i <= s.len(),
            r@.map_values(|v: Vec<char>| v@) + split_spec(s@.skip(start as int), p@) == split_spec(
                s@,
                p@,
            ),
            index_from(s@.skip(start as int), p@, 0) == index_from(
                s@.skip(start as int),
                p@,
                i - start,
            ),
        decreases s.len() - i,
    {
        let ghost rest = s@.skip(start as int);
        let ghost j = i - start;
        proof {
            assert(rest.subrange(j, j + p@.len()) == s@.subrange(i as int, i + p@.len()));
        }
        if crate::text::occurs_at_exec(s, p, i) {
            assert(occurs_at(rest, p@, j));
            let piece = sub_chars(s, start, i);
            proof {
                assert(rest.take(j) == piece@);
                assert(rest.skip(j + p@.len()) == s@.skip(i + p@.len()));
            }
            let ghost before = r@;
            r.push(piece);
            proof {
                assert(r@.map_values(|v: Vec<char>| v@) == before.map_values(|v: Vec<char>| v@).push(
                    piece@,
                ));
                assert(s@.skip(i + p@.len()).skip(0) == s@.skip(i + p@.len()));
            }
            i = i + p.len();
            start = i;
        } else {
            assert(!occurs_at(rest, p@, j));
            i += 1;
        }
    }
    let ghost rest = s@.skip(start as int);
    proof {
        assert(i - start + p@.len() > rest.len());
        assert(index_from(rest, p@, 0) == -1);
    }
    let last = sub_chars(s, start, s.len());
    assert(last@ == rest);
    let ghost before = r@;
    r.push(last);
    assert(r@.map_values(|v: Vec<char>| v@) == before.map_values(|v: Vec<char>| v@).push(last@));
    r
}

/// The first of `lines` that starts with `prefix`, if any.
pub open spec fn first_line_with(lines: Seq<Seq<char>>, prefix: Seq<char>) -> Option<Seq<char>>
    decreases lines.len(),
{
    if lines.len() == 0 {
        None
    } else if prefix.is_prefix_of(lines[0]) {
        Some(lines[0])
    } else {
        first_line_with(lines.drop_first(), prefix)
    }
}

/// The contractors a report lists: its first line starting with
/// `Contractors: `, without that label, split at `, `.
pub open spec fn contractors_spec(content: Seq<char>) -> Option<Seq<Seq<char>>> {
    match first_line_with(lines_spec(content), "Contractors: "@) {
        Some(l) => Some(split_spec(trim_start_matches_spec(l, "Contractors: "@), ", "@)),
        None => None,
    }
}

/// The contractors a report lists (see `contractors_spec`); `None` when it
/// has no contractors line.
pub fn contractors_of(content: &str) -> (r: Option<Vec<String>>)
    ensures
        r matches Some(v) ==> contractors_spec(content@) == Some(views(v@)),
        r is None ==> contractors_spec(content@) is None,
{
    let label = chars_of("Contractors: ");
    let sep = chars_of(", ");
    proof {
        reveal_strlit("Contractors: ");
        reveal_strlit(", ");
    }
    let ls = crate::briefing::lines(&chars_of(content));
    let ghost all = ls@.map_values(|l: Vec<char>| l@);
    let mut i: usize = 0;
    assert(all.skip(0) == all);
    while i < ls.len()
        invariant
            i <= ls.len(),
            label@ == "Contractors: "@,
            label@.len() > 0,
            sep@.len() > 0,
            sep@ == ", "@,
            all == ls@.map_values(|l: Vec<char>| l@),
            all == lines_spec(content@),
            first_line_with(all, "Contractors: "@) == first_line_with(all.skip(i as int), "Contractors: "@),
        decreases ls.len() - i,
    {
        proof {
            assert(all.skip(i as int)[0] == ls@[i as int]@);
            assert(all.skip(i as int).drop_first() == all.skip(i + 1));
        }
        if crate::text::starts_with_chars(&ls[i], &label) {
            let trimmed = crate::text::trim_start_matches(&ls[i], &label);
            let pieces = split_chars(&trimmed, &sep);
            let mut out: Vec<String> = Vec::new();
            let mut k: usize = 0;
            while k < pieces.len()
                invariant
                    k <= pieces.len(),
                    views(out@) == pieces@.map_values(|v: Vec<char>| v@).take(k as int),
                decreases pieces.len() - k,
            {
                let ghost before = out@;
                out.push(string_of(&pieces[k]));
                proof {
                    assert(views(out@) == views(before).push(pieces@[k as int]@));
                    assert(pieces@.map_values(|v: Vec<char>| v@).take(k + 1)
                        == pieces@.map_values(|v: Vec<char>| v@).take(k as int).push(pieces@[k as int]@));
                }
                k += 1;
            }
            assert(pieces@.map_values(|v: Vec<char>| v@).take(pieces.len() as int)
                == pieces@.map_values(|v: Vec<char>| v@));
            proof {
                assert("Contractors: "@.is_prefix_of(all.skip(i as int)[0]));
                assert(first_line_with(all.skip(i as int), "Contractors: "@) == Some(ls@[i as int]@));
                assert(views(out@) == split_spec(trimmed@, sep@));
            }
            return Some(out);
        }
        i += 1;
    }
    assert(all.skip(i as int).len() == 0);
    None
}


/// The reply naming the members that were not found.
pub open spec fn unknown_reply_spec(unknown: Seq<Seq<char>>) -> Seq<char> {
    "Could not find the following members: "@ + join_spec(unknown, ", "@)
}

/// The reply naming the members that were not found (see `unknown_reply_spec`).
pub fn unknown_reply(unknown: &Vec<String>) -> (r: String)
    ensures
        r@ == unknown_reply_spec(views(unknown@)),
{
    let mut r = String::new();
    push_lit(&mut r, "Could not find the following members: ");
    let j = crate::text::join_strings(unknown, ", ");
    push_lit(&mut r, j.as_str());
    r
}

/// The ids of the members found, one per line.
pub open spec fn ids_lines(found: Seq<(String, u64)>) -> Seq<Seq<char>> {
    found.map_values(|f: (String, u64)| decimal(f.1 as nat))
}

/// The reply to a request for a report's ids: the ids when every member was
/// found, else the members that were not.
pub open spec fn ids_reply_spec(found: Seq<(String, u64)>, unknown: Seq<Seq<char>>) -> Seq<char> {
    if unknown.len() == 0 {
        "**IDs**\n"@ + join_spec(ids_lines(found), "\n"@)
    } else {
        unknown_reply_spec(unknown)
    }
}

/// The reply to a request for a report's ids (see `ids_reply_spec`).
pub fn ids_reply(found: &Vec<(String, u64)>, unknown: &Vec<String>) -> (r: String)
    ensures
        r@ == ids_reply_spec(found@, views(unknown@)),
{
    if unknown.len() == 0 {
        let mut ids: Vec<String> = Vec::new();
        let mut i: usize = 0;
        while i < found.len()
            invariant
                i <= found.len(),
                views(ids@) == ids_lines(found@).take(i as int),
            decreases found.len() - i,
        {
            let ghost before = ids@;
            ids.push(crate::text::u64_text(found[i].1));
            proof {
                assert(views(ids@) == views(before).push(decimal(found@[i as int].1 as nat)));
                assert(ids_lines(found@).take(i + 1) == ids_lines(found@).take(i as int).push(
                    decimal(found@[i as int].1 as nat),
                ));
            }
            i += 1;
        }
        assert(ids_lines(found@).take(found.len() as int) == ids_lines(found@));
        let mut r = String::new();
        push_lit(&mut r, "**IDs**\n");
        let j = crate::text::join_strings(&ids, "\n");
        push_lit(&mut r, j.as_str());
        r
    } else {
        unknown_reply(unknown)
    }
}

/// The reputation levels a mission can be given, with their values.
pub open spec fn reputation_levels() -> Seq<(Seq<char>, i64)> {
    seq![
        ("Extremely Postive"@, 150i64),
        ("Very Positive"@, 80i64),
        ("Positive"@, 30i64),
        ("Slightly Positive"@, 10i64),
        ("Neutral"@, 0i64),
        ("Slightly Negative"@, -10i64),
        ("Negative"@, -50i64),
        ("Very Negative"@, -100i64),
        ("Extremely Negative"@, -200i64),
    ]
}

/// How a reputation level is offered: its name and its value in brackets.
pub open spec fn level_label(level: (Seq<char>, i64)) -> Seq<char> {
    level.0 + " ("@ + int_text(level.1 as int) + ")"@
}

/// The choices offered for a mission's reputation: each level's label and value.
pub open spec fn reputation_choices_spec() -> Seq<(Seq<char>, i64)> {
    reputation_levels().map_values(|l: (Seq<char>, i64)| (level_label(l), l.1))
}

fn level_choice(name: &str, value: i64) -> (r: (String, i64))
    ensures
        r.0@ == level_label((name@, value)),
        r.1 == value,
{
    let mut label = String::new();
    push_lit(&mut label, name);
    push_lit(&mut label, " (");
    crate::text::push_int(&mut label, value);
    push_lit(&mut label, ")");
    (label, value)
}

/// The choices offered for a mission's reputation (see `reputation_choices_spec`).
pub fn reputation_choices() -> (r: Vec<(String, i64)>)
    ensures
        r@.map_values(|c: (String, i64)| (c.0@, c.1)) == reputation_choices_spec(),
{
    let r = vec![
        level_choice("Extremely Postive", 150),
        level_choice("Very Positive", 80),
        level_choice("Positive", 30),
        level_choice("Slightly Positive", 10),
        level_choice("Neutral", 0),
        level_choice("Slightly Negative", -10),
        level_choice("Negative", -50),
        level_choice("Very Negative", -100),
        level_choice("Extremely Negative", -200),
    ];
    assert(r@.map_values(|c: (String, i64)| (c.0@, c.1)) == reputation_choices_spec());
    r
}

/// How far a payment has come.
#[derive(Clone, Copy, Debug, PartialEq, Eq, Structural)]
pub enum PayStage {
    Start,
    /// The report's message is being fetched.
    Message,
    /// The report is being read.
    Report,
    /// The current reputation is being fetched.
    Reputation,
    /// The staff member is choosing the mission's reputation level.
    Level,
    /// The contractors are being looked up; the level chosen, if it is a number.
    Members { level: Option<i64> },
    /// The scheduled mission is being looked up.
    Schedule { level: Option<i64> },
    /// The mission's reputation is being recorded.
    Recorded,
    /// The staff member is choosing the payment type.
    Payment,
    /// The staff member is confirming the payment.
    Confirm,
    /// The mission is being paid.
    Paying,
    Done,
}

/// What the outside work of the last step gave.
#[derive(Clone, Debug)]
pub enum PayEvent {
    /// The command was run; whether the caller is staff, if they are a member.
    Started { staff: Option<bool> },
    MessageFetched { found: bool },
    /// The report was read, or the reason it could not be.
    ReportParsed { error: Option<String> },
    ReputationFetched { found: bool },
    /// The value of the level chosen, if one was.
    LevelChosen { value: Option<String> },
    /// Whether the lookup worked, and the contractors it did not find.
    MembersFound { ok: bool, unknown: Vec<String> },
    ScheduleFound { found: bool },
    ReputationRecorded { ok: bool },
    /// Whether a known payment type was chosen.
    PaymentChosen { ok: bool },
    Confirmed { answer: Confirmation },
    Paid { ok: bool },
}

/// What is done next.
#[derive(Clone, Debug)]
pub enum PayAction {
    /// Reply with this text; the payment ends.
    Reply(String),
    FetchMessage,
    ParseReport,
    FetchReputation,
    AskLevel,
    FindMembers,
    FindSchedule,
    /// Record the mission as completed with this reputation.
    RecordReputation(i64),
    AskPayment,
    AskConfirm,
    Pay,
    /// The mission was paid: tell the report, the mission's thread and the
    /// reports channel; the payment ends.
    Announce,
    /// The chosen level is no number: the payment fails.
    Abort,
    /// The payment ends without a reply.
    Finish,
}

/// The order of the stages; every step moves to a later one.
pub open spec fn pay_rank(s: PayStage) -> int {
    match s {
        PayStage::Start => 0,
        PayStage::Message => 1,
        PayStage::Report => 2,
        PayStage::Reputation => 3,
        PayStage::Level => 4,
        PayStage::Members { .. } => 5,
        PayStage::Schedule { .. } => 6,
        PayStage::Recorded => 7,
        PayStage::Payment => 8,
        PayStage::Confirm => 9,
        PayStage::Paying => 10,
        PayStage::Done => 11,
    }
}

/// `a` is a reply with the text `t`.
pub open spec fn reply_is(a: PayAction, t: Seq<char>) -> bool {
    a matches PayAction::Reply(r) && r@ == t
}

/// The reply when a report cannot be read.
pub open spec fn parse_failure_spec(e: Seq<char>) -> Seq<char> {
    ":confused: I couldn't parse that AAR. Please make sure you're using the template. Error: "@ + e
}

/// One step of paying a mission: from the stage and what the outside work
/// gave, the next stage and what is done next.
pub open spec fn pay_step_spec(stage: PayStage, event: PayEvent, next: PayStage, action: PayAction) -> bool {
    match (stage, event) {
        (PayStage::Start, PayEvent::Started { staff }) => match staff {
            None => next == PayStage::Done && reply_is(action, "Failed to get member"@),
            Some(false) => next == PayStage::Done && reply_is(action, "You must be staff to use this command"@),
            Some(true) => next == PayStage::Message && action is FetchMessage,
        },
        (PayStage::Message, PayEvent::MessageFetched { found }) => if found {
            next == PayStage::Report && action is ParseReport
        } else {
            next == PayStage::Done && reply_is(action, "Failed to find message"@)
        },
        (PayStage::Report, PayEvent::ReportParsed { error }) => match error {
            Some(e) => next == PayStage::Done && reply_is(action, parse_failure_spec(e@)),
            None => next == PayStage::Reputation && action is FetchReputation,
        },
        (PayStage::Reputation, PayEvent::ReputationFetched { found }) => if found {
            next == PayStage::Level && action is AskLevel
        } else {
            next == PayStage::Done && reply_is(action, "Failed to get get reputation"@)
        },
        (PayStage::Level, PayEvent::LevelChosen { value }) => match value {
            None => next == PayStage::Done && reply_is(action, "Failed to get reputation"@),
            Some(v) => next == (PayStage::Members { level: crate::text::parse_i64_spec(v@) })
                && action is FindMembers,
        },
        (PayStage::Members { level }, PayEvent::MembersFound { ok, unknown }) => if !ok {
            next == PayStage::Done && reply_is(action, "Failed to find members"@)
        } else if unknown@.len() > 0 {
            next == PayStage::Done && reply_is(action, unknown_reply_spec(views(unknown@)))
        } else {
            next == (PayStage::Schedule { level }) && action is FindSchedule
        },
        (PayStage::Schedule { level }, PayEvent::ScheduleFound { found }) => if !found {
            next == PayStage::Done && reply_is(action, "Failed to find scheduled date"@)
        } else {
            match level {
                Some(r) => next == PayStage::Recorded && action == PayAction::RecordReputation(r),
                None => next == PayStage::Done && action is Abort,
            }
        },
        (PayStage::Recorded, PayEvent::ReputationRecorded { ok }) => if ok {
            next == PayStage::Payment && action is AskPayment
        } else {
            next == PayStage::Done && reply_is(action, "Failed to set reputation"@)
        },
        (PayStage::Payment, PayEvent::PaymentChosen { ok }) => if ok {
            next == PayStage::Confirm && action is AskConfirm
        } else {
            next == PayStage::Done && reply_is(action, "Failed to get payment type"@)
        },
        (PayStage::Confirm, PayEvent::Confirmed { answer }) => if answer == Confirmation::Yes {
            next == PayStage::Paying && action is Pay
        } else {
            next == PayStage::Done && action is Finish
        },
        (PayStage::Paying, PayEvent::Paid { ok }) => if ok {
            next == PayStage::Done && action is Announce
        } else {
            next == PayStage::Done && reply_is(action, "Failed to pay mission"@)
        },
        _ => next == PayStage::Done && action is Finish,
    }
}

fn reply(text: &str) -> (a: PayAction)
    ensures
        reply_is(a, text@),
{
    PayAction::Reply(string_of(&chars_of(text)))
}

/// One step of paying a mission (see `pay_step_spec`). Every step moves to
/// a later stage, so a payment takes at most eleven steps; the mission is
/// paid only right after the staff member confirmed with yes.
pub fn pay_step(stage: PayStage, event: PayEvent) -> (r: (PayStage, PayAction))
    ensures
        pay_step_spec(stage, event, r.0, r.1),
        pay_rank(r.0) > pay_rank(stage) || stage == PayStage::Done,
        r.1 is Pay ==> stage == PayStage::Confirm && (event matches PayEvent::Confirmed { answer }
            && answer == Confirmation::Yes),
{
    match (stage, event) {
        (PayStage::Start, PayEvent::Started { staff }) => match staff {
            None => (PayStage::Done, reply("Failed to get member")),
            Some(false) => (PayStage::Done, reply("You must be staff to use this command")),
            Some(true) => (PayStage::Message, PayAction::FetchMessage),
        },
        (PayStage::Message, PayEvent::MessageFetched { found }) => if found {
            (PayStage::Report, PayAction::ParseReport)
        } else {
            (PayStage::Done, reply("Failed to find message"))
        },
        (PayStage::Report, PayEvent::ReportParsed { error }) => match error {
            Some(e) => {
                let mut t = String::new();
                push_lit(
                    &mut t,
                    ":confused: I couldn't parse that AAR. Please make sure you're using the template. Error: ",
                );
                push_lit(&mut t, e.as_str());
                (PayStage::Done, PayAction::Reply(t))
            },
            None => (PayStage::Reputation, PayAction::FetchReputation),
        },
        (PayStage::Reputation, PayEvent::ReputationFetched { found }) => if found {
            (PayStage::Level, PayAction::AskLevel)
        } else {
            (PayStage::Done, reply("Failed to get get reputation"))
        },
        (PayStage::Level, PayEvent::LevelChosen { value }) => match value {
            None => (PayStage::Done, reply("Failed to get reputation")),
            Some(v) => (PayStage::Members { level: crate::text::parse_i64(v.as_str()) }, PayAction::FindMembers),
        },
        (PayStage::Members { level }, PayEvent::MembersFound { ok, unknown }) => if !ok {
            (PayStage::Done, reply("Failed to find members"))
        } else if unknown.len() > 0 {
            (PayStage::Done, PayAction::Reply(unknown_reply(&unknown)))
        } else {
            (PayStage::Schedule { level }, PayAction::FindSchedule)
        },
        (PayStage::Schedule { level }, PayEvent::ScheduleFound { found }) => if !found {
            (PayStage::Done, reply("Failed to find scheduled date"))
        } else {
            match level {
                Some(r) => (PayStage::Recorded, PayAction::RecordReputation(r)),
                None => (PayStage::Done, PayAction::Abort),
            }
        },
        (PayStage::Recorded, PayEvent::ReputationRecorded { ok }) => if ok {
            (PayStage::Payment, PayAction::AskPayment)
        } else {
            (PayStage::Done, reply("Failed to set reputation"))
        },
        (PayStage::Payment, PayEvent::PaymentChosen { ok }) => if ok {
            (PayStage::Confirm, PayAction::AskConfirm)
        } else {
            (PayStage::Done, reply("Failed to get payment type"))
        },
        (PayStage::Confirm, PayEvent::Confirmed { answer }) => if answer == Confirmation::Yes {
            (PayStage::Paying, PayAction::Pay)
        } else {
            (PayStage::Done, PayAction::Finish)
        },
        (PayStage::Paying, PayEvent::Paid { ok }) => if ok {
            (PayStage::Done, PayAction::Announce)
        } else {
            (PayStage::Done, reply("Failed to pay mission"))
        },
        _ => (PayStage::Done, PayAction::Finish),
    }
}

/// The prompt that asks a staff member to confirm a payment: its workings
/// in a code block.
pub fn confirm_prompt(math: &str) -> (r: String)
    ensures
        r@ == "```"@ + math@ + "```"@,
{
    let mut r = String::new();
    push_lit(&mut r, "```");
    push_lit(&mut r, math);
    push_lit(&mut r, "```");
    r
}

/// The reply to a report once its mission was paid.
pub fn paid_reply(math: &str) -> (r: String)
    ensures
        r@ == ":white_check_mark: **Paid**\n```"@ + math@ + "```"@,
{
    let mut r = String::new();
    push_lit(&mut r, ":white_check_mark: **Paid**\n```");
    push_lit(&mut r, math);
    push_lit(&mut r, "```");
    r
}

/// The contractors paid: a mention of each member found, then the names
/// that were not found.
pub open spec fn paid_names(found: Seq<(String, u64)>, unknown: Seq<Seq<char>>) -> Seq<Seq<char>> {
    found.map_values(|f: (String, u64)| crate::brain::mention_tag(f.1)) + unknown
}

/// The message posted in a mission's thread once it was paid.
pub open spec fn contractors_paid_spec(
    found: Seq<(String, u64)>,
    unknown: Seq<Seq<char>>,
    math: Seq<char>,
) -> Seq<char> {
    "Contractors Paid: "@ + join_spec(paid_names(found, unknown), ", "@) + "\n```"@ + math + "```"@
}

/// The message posted in a mission's thread once it was paid (see `contractors_paid_spec`).
pub fn contractors_paid(found: &Vec<(String, u64)>, unknown: &Vec<String>, math: &str) -> (r: String)
    ensures
        r@ == contractors_paid_spec(found@, views(unknown@), math@),
{
    let mut names: Vec<String> = Vec::new();
    let mut i: usize = 0;
    while i < found.len()
        invariant
            i <= found.len(),
            views(names@) == found@.map_values(|f: (String, u64)| crate::brain::mention_tag(f.1)).take(
                i as int,
            ),
        decreases found.len() - i,
    {
        let mut m = String::new();
        push_lit(&mut m, "<@");
        crate::text::push_decimal(&mut m, found[i].1);
        push_lit(&mut m, ">");
        let ghost before = names@;
        names.push(m);
        proof {
            assert(views(names@) == views(before).push(m@));
            assert(found@.map_values(|f: (String, u64)| crate::brain::mention_tag(f.1)).take(i + 1)
                == found@.map_values(|f: (String, u64)| crate::brain::mention_tag(f.1)).take(
                i as int,
            ).push(crate::brain::mention_tag(found@[i as int].1)));
        }
        i += 1;
    }
    assert(found@.map_values(|f: (String, u64)| crate::brain::mention_tag(f.1)).take(
        found.len() as int,
    ) == found@.map_values(|f: (String, u64)| crate::brain::mention_tag(f.1)));
    let mut k: usize = 0;
    let ghost mentioned = views(names@);
    while k < unknown.len()
        invariant
            k <= unknown.len(),
            views(names@) == mentioned + views(unknown@).take(k as int),
        decreases unknown.len() - k,
    {
        let ghost before = names@;
        names.push(unknown[k].clone());
        proof {
            assert(views(names@) == views(before).push(unknown@[k as int]@));
            assert(views(unknown@).take(k + 1) == views(unknown@).take(k as int).push(
                unknown@[k as int]@,
            ));
        }
        k += 1;
    }
    assert(views(unknown@).take(unknown.len() as int) == views(unknown@));
    let mut r = String::new();
    push_lit(&mut r, "Contractors Paid: ");
    let j = crate::text::join_strings(&names, ", ");
    push_lit(&mut r, j.as_str());
    push_lit(&mut r, "\n```");
    push_lit(&mut r, math);
    push_lit(&mut r, "```");
    r
}

/// The message posted in the reports channel once a mission was paid: the
/// report and its payment workings.
pub fn report_log(content: &str, math: &str) -> (r: String)
    ensures
        r@ == "```ansi"@ + content@ + "\n\n"@ + math@ + "```"@,
{
    let mut r = String::new();
    push_lit(&mut r, "```ansi");
    push_lit(&mut r, content);
    push_lit(&mut r, "\n\n");
    push_lit(&mut r, math);
    push_lit(&mut r, "```");
    r
}

/// How far the check of a posted report has come.
#[derive(Clone, Copy, Debug, PartialEq, Eq, Structural)]
pub enum CheckStage {
    Start,
    /// The report is being read.
    Report,
    /// Its scheduled mission is being looked up; whether it is a contract.
    Schedule { contract: bool },
    /// The contractors of a scheduled mission are being checked.
    Contractors,
    /// The contractors are being looked up.
    Members,
    Done,
}

/// How the lookup of a report's scheduled mission went.
#[derive(Clone, Copy, Debug, PartialEq, Eq, Structural)]
pub enum ScheduleLookup {
    Found,
    Missing,
    Failed,
}

/// What the outside work of the last step gave.
#[derive(Clone, Debug)]
pub enum CheckEvent {
    /// A message was posted in the reports channel, by a bot or not.
    Posted { content: String, bot: bool },
    /// The report was read, or the reason it could not be; whether it is a contract.
    Parsed { error: Option<String>, contract: bool },
    ScheduleLookedUp { lookup: ScheduleLookup },
    /// The contractors were checked, or the reason they could not be.
    ContractorsChecked { error: Option<String> },
    /// How many contractors were found and which were not, if the lookup worked.
    MembersFound { found: Option<(u64, Vec<String>)> },
}

/// The outside work that comes next.
#[derive(Clone, Copy, Debug, PartialEq, Eq, Structural)]
pub enum CheckWork {
    Parse,
    FindSchedule,
    CheckContractors,
    /// Link the report to its scheduled mission, then look up the contractors.
    LinkAndFindMembers,
    FindMembers,
    Finish,
}

/// The replies to send to the report, then the work that comes next.
#[derive(Clone, Debug)]
pub struct CheckAction {
    pub replies: Vec<String>,
    pub work: CheckWork,
}

/// The reply when a posted report cannot be read.
pub open spec fn check_parse_failure(e: Seq<char>) -> Seq<char> {
    ":confused: I couldn't parse that AAR. Please make sure you're using the template. \n > "@ + e
}

/// The reply when a report's mission is not scheduled on its date.
pub open spec fn not_scheduled() -> Seq<char> {
    ":confused: I couldn't find that mission on that date. Double check the date and mission name."@
}

/// The reply that counts the contractors found.
pub open spec fn found_count(n: u64) -> Seq<char> {
    "Found "@ + decimal(n as nat) + " members"@
}

/// A message is a report to check: it starts or ends with a code fence,
/// and no bot posted it.
pub open spec fn is_report(content: Seq<char>, bot: bool) -> bool {
    ("```"@.is_prefix_of(content) || "```"@.is_suffix_of(content)) && !bot
}

/// One step of checking a posted report: from the stage and what the
/// outside work gave, the next stage, the replies, and the work next.
pub open spec fn check_step_spec(stage: CheckStage, event: CheckEvent, next: CheckStage, a: CheckAction) -> bool {
    let rs = views(a.replies@);
    match (stage, event) {
        (CheckStage::Start, CheckEvent::Posted { content, bot }) => if is_report(content@, bot) {
            next == CheckStage::Report && rs.len() == 0 && a.work == CheckWork::Parse
        } else {
            next == CheckStage::Done && rs.len() == 0 && a.work == CheckWork::Finish
        },
        (CheckStage::Report, CheckEvent::Parsed { error, contract }) => match error {
            Some(e) => next == CheckStage::Done && rs == seq![check_parse_failure(e@)] && a.work
                == CheckWork::Finish,
            None => next == (CheckStage::Schedule { contract }) && rs.len() == 0 && a.work
                == CheckWork::FindSchedule,
        },
        (CheckStage::Schedule { contract }, CheckEvent::ScheduleLookedUp { lookup }) => match lookup {
            ScheduleLookup::Found => next == CheckStage::Contractors && rs.len() == 0 && a.work
                == CheckWork::CheckContractors,
            ScheduleLookup::Missing => next == CheckStage::Done && rs == seq![not_scheduled()]
                && a.work == CheckWork::Finish,
            ScheduleLookup::Failed => next == CheckStage::Members && a.work == CheckWork::FindMembers
                && rs == seq![
                if contract {
                    not_scheduled()
                } else {
                    ":white_check_mark: AAR Valid! Although since this is a non-contract mission, it won't be automatically linked to a mission."@
                },
            ],
        },
        (CheckStage::Contractors, CheckEvent::ContractorsChecked { error }) => match error {
            Some(e) => next == CheckStage::Done && rs == seq![e@] && a.work == CheckWork::Finish,
            None => next == CheckStage::Members && rs == seq![":white_check_mark: AAR Valid!"@]
                && a.work == CheckWork::LinkAndFindMembers,
        },
        (CheckStage::Members, CheckEvent::MembersFound { found }) => next == CheckStage::Done
            && a.work == CheckWork::Finish && match found {
            None => rs == seq!["Failed to find members"@],
            Some((n, unknown)) => if unknown@.len() > 0 {
                rs == seq![unknown_reply_spec(views(unknown@)), found_count(n)]
            } else {
                rs == seq![found_count(n)]
            },
        },
        _ => next == CheckStage::Done && rs.len() == 0 && a.work == CheckWork::Finish,
    }
}

fn lit(t: &str) -> (r: String)
    ensures
        r@ == t@,
{
    string_of(&chars_of(t))
}

fn one(t: String) -> (r: Vec<String>)
    ensures
        views(r@) == seq![t@],
{
    let mut r: Vec<String> = Vec::new();
    r.push(t);
    assert(views(r@) == seq![t@]);
    r
}

fn count_reply(n: u64) -> (r: String)
    ensures
        r@ == found_count(n),
{
    let mut r = String::new();
    push_lit(&mut r, "Found ");
    crate::text::push_decimal(&mut r, n);
    push_lit(&mut r, " members");
    r
}

/// The order of the stages of a check; every step moves to a later one.
pub open spec fn check_rank(s: CheckStage) -> int {
    match s {
        CheckStage::Start => 0,
        CheckStage::Report => 1,
        CheckStage::Schedule { .. } => 2,
        CheckStage::Contractors => 3,
        CheckStage::Members => 4,
        CheckStage::Done => 5,
    }
}

/// One step of checking a posted report (see `check_step_spec`). Every step
/// moves to a later stage, so a check takes at most five steps.
pub fn check_step(stage: CheckStage, event: CheckEvent) -> (r: (CheckStage, CheckAction))
    ensures
        check_step_spec(stage, event, r.0, r.1),
        check_rank(r.0) > check_rank(stage) || stage == CheckStage::Done,
{
    let none: Vec<String> = Vec::new();
    assert(views(none@) == Seq::<Seq<char>>::empty());
    match (stage, event) {
        (CheckStage::Start, CheckEvent::Posted { content, bot }) => {
            let c = chars_of(content.as_str());
            let fence = chars_of("```");
            let report = (crate::text::starts_with_chars(&c, &fence) || crate::text::ends_with_chars(
                &c,
                &fence,
            )) && !bot;
            if report {
                (CheckStage::Report, CheckAction { replies: none, work: CheckWork::Parse })
            } else {
                (CheckStage::Done, CheckAction { replies: none, work: CheckWork::Finish })
            }
        },
        (CheckStage::Report, CheckEvent::Parsed { error, contract }) => match error {
            Some(e) => {
                let mut t = String::new();
                push_lit(
                    &mut t,
                    ":confused: I couldn't parse that AAR. Please make sure you're using the template. \n > ",
                );
                push_lit(&mut t, e.as_str());
                (CheckStage::Done, CheckAction { replies: one(t), work: CheckWork::Finish })
            },
            None => (
                CheckStage::Schedule { contract },
                CheckAction { replies: none, work: CheckWork::FindSchedule },
            ),
        },
        (CheckStage::Schedule { contract }, CheckEvent::ScheduleLookedUp { lookup }) => match lookup {
            ScheduleLookup::Found => (
                CheckStage::Contractors,
                CheckAction { replies: none, work: CheckWork::CheckContractors },
            ),
            ScheduleLookup::Missing => (
                CheckStage::Done,
                CheckAction {
                    replies: one(
                        lit(
                            ":confused: I couldn't find that mission on that date. Double check the date and mission name.",
                        ),
                    ),
                    work: CheckWork::Finish,
                },
            ),
            ScheduleLookup::Failed => {
                let t = if contract {
                    lit(
                        ":confused: I couldn't find that mission on that date. Double check the date and mission name.",
                    )
                } else {
                    lit(
                        ":white_check_mark: AAR Valid! Although since this is a non-contract mission, it won't be automatically linked to a mission.",
                    )
                };
                (CheckStage::Members, CheckAction { replies: one(t), work: CheckWork::FindMembers })
            },
        },
        (CheckStage::Contractors, CheckEvent::ContractorsChecked { error }) => match error {
            Some(e) => (CheckStage::Done, CheckAction { replies: one(e), work: CheckWork::Finish }),
            None => (
                CheckStage::Members,
                CheckAction {
                    replies: one(lit(":white_check_mark: AAR Valid!")),
                    work: CheckWork::LinkAndFindMembers,
                },
            ),
        },
        (CheckStage::Members, CheckEvent::MembersFound { found }) => match found {
            None => (
                CheckStage::Done,
                CheckAction {
                    replies: one(lit("Failed to find members")),
                    work: CheckWork::Finish,
                },
            ),
            Some((n, unknown)) => {
                let mut rs: Vec<String> = Vec::new();
                if unknown.len() > 0 {
                    rs.push(unknown_reply(&unknown));
                }
                rs.push(count_reply(n));
                assert(views(rs@) == if unknown@.len() > 0 {
                    seq![unknown_reply_spec(views(unknown@)), found_count(n)]
                } else {
                    seq![found_count(n)]
                });
                (CheckStage::Done, CheckAction { replies: rs, work: CheckWork::Finish })
            },
        },
        _ => (CheckStage::Done, CheckAction { replies: none, work: CheckWork::Finish }),
    }
}

proof fn lemma_join_front(a: Seq<char>, rest: Seq<Seq<char>>, p: Seq<char>)
    requires
        rest.len() > 0,
    ensures
        join_spec(seq![a] + rest, p) == a + p + join_spec(rest, p),
    decreases rest.len(),
{
    let all = seq![a] + rest;
    assert(all.drop_last() == seq![a] + rest.drop_last());
    assert(all.last() == rest.last());
    if rest.len() == 1 {
        assert(rest.drop_last().len() == 0);
        assert(all.drop_last() == seq![a]);
        assert(join_spec(seq![a], p) == a);
        assert(join_spec(rest, p) == rest[0]);
    } else {
        lemma_join_front(a, rest.drop_last(), p);
    }
}

proof fn lemma_split_nonempty(s: Seq<char>, p: Seq<char>)
    ensures
        split_spec(s, p).len() > 0,
    decreases s.len(),
{
    let k = index_from(s, p, 0);
    if p.len() > 0 && k >= 0 {
        lemma_index_from(s, p, 0);
        lemma_split_nonempty(s.skip(k + p.len()), p);
    }
}

/// Splitting a text at a non-empty separator and joining the pieces with
/// it gives back the text.
pub proof fn law_split_join(s: Seq<char>, p: Seq<char>)
    requires
        p.len() > 0,
    ensures
        join_spec(split_spec(s, p), p) == s,
    decreases s.len(),
{
    let k = index_from(s, p, 0);
    if k < 0 {
        assert(join_spec(seq![s], p) == s);
    } else {
        lemma_index_from(s, p, 0);
        let rest = s.skip(k + p.len());
        law_split_join(rest, p);
        lemma_split_nonempty(rest, p);
        lemma_join_front(s.take(k), split_spec(rest, p), p);
        assert(s.subrange(k, k + p.len()) == p);
        assert(s.take(k) + p + rest == s);
    }
}

/// A report is linked to its scheduled mission only right after its
/// contractors were checked without error, and a posted message is read as
/// a report only when it is fenced and no bot posted it.
pub proof fn law_link_only_when_valid(stage: CheckStage, event: CheckEvent, next: CheckStage, a: CheckAction)
    requires
        check_step_spec(stage, event, next, a),
    ensures
        a.work == CheckWork::LinkAndFindMembers ==> stage == CheckStage::Contractors && (
        event matches CheckEvent::ContractorsChecked { error } && error is None),
        a.work == CheckWork::Parse ==> (event matches CheckEvent::Posted { content, bot } && is_report(
            content@,
            bot,
        )),
{
}

/// Paying a mission where everything works: staff run the command, the
/// report is found and read, the reputation fetched, a numeric level chosen,
/// every contractor found and the scheduled mission too; the level is
/// recorded, a payment type chosen and confirmed with yes, and the paid
/// mission announced, after exactly eleven steps.
pub proof fn law_pay_succeeds(
    v: String,
    none: Vec<String>,
    n: Seq<PayStage>,
    a: Seq<PayAction>,
)
    requires
        none@.len() == 0,
        crate::text::parse_i64_spec(v@) is Some,
        n.len() == 11,
        a.len() == 11,
        pay_step_spec(PayStage::Start, PayEvent::Started { staff: Some(true) }, n[0], a[0]),
        pay_step_spec(n[0], PayEvent::MessageFetched { found: true }, n[1], a[1]),
        pay_step_spec(n[1], PayEvent::ReportParsed { error: None }, n[2], a[2]),
        pay_step_spec(n[2], PayEvent::ReputationFetched { found: true }, n[3], a[3]),
        pay_step_spec(n[3], PayEvent::LevelChosen { value: Some(v) }, n[4], a[4]),
        pay_step_spec(n[4], PayEvent::MembersFound { ok: true, unknown: none }, n[5], a[5]),
        pay_step_spec(n[5], PayEvent::ScheduleFound { found: true }, n[6], a[6]),
        pay_step_spec(n[6], PayEvent::ReputationRecorded { ok: true }, n[7], a[7]),
        pay_step_spec(n[7], PayEvent::PaymentChosen { ok: true }, n[8], a[8]),
        pay_step_spec(n[8], PayEvent::Confirmed { answer: Confirmation::Yes }, n[9], a[9]),
        pay_step_spec(n[9], PayEvent::Paid { ok: true }, n[10], a[10]),
    ensures
        a[0] is FetchMessage,
        a[1] is ParseReport,
        a[2] is FetchReputation,
        a[3] is AskLevel,
        a[4] is FindMembers,
        a[5] is FindSchedule,
        a[6] == PayAction::RecordReputation(crate::text::parse_i64_spec(v@)->0),
        a[7] is AskPayment,
        a[8] is AskConfirm,
        a[9] is Pay,
        a[10] is Announce,
        n[10] == PayStage::Done,
{
}

/// A payment is refused to a caller who is not staff, stops with a reply
/// naming the contractors that could not be found, and is never made when
/// the staff member does not confirm with yes.
pub proof fn law_pay_refusals(stage: PayStage, unknown: Vec<String>, answer: Confirmation, next: PayStage, action: PayAction)
    ensures
        pay_step_spec(PayStage::Start, PayEvent::Started { staff: Some(false) }, next, action) ==> next
            == PayStage::Done && reply_is(action, "You must be staff to use this command"@),
        unknown@.len() > 0 && (stage is Members) && pay_step_spec(
            stage,
            PayEvent::MembersFound { ok: true, unknown },
            next,
            action,
        ) ==> next == PayStage::Done && reply_is(action, unknown_reply_spec(views(unknown@))),
        answer != Confirmation::Yes && pay_step_spec(
            PayStage::Confirm,
            PayEvent::Confirmed { answer },
            next,
            action,
        ) ==> next == PayStage::Done && !(action is Pay),
{
}

/// Checking a valid contract report: a fenced message from a person is
/// read, its scheduled mission found, its contractors checked, the report
/// declared valid and linked, and the contractors counted, in five steps.
/// A message without a fence, or from a bot, is left alone.
pub proof fn law_check_valid_report(
    content: String,
    n: u64,
    none: Vec<String>,
    s: Seq<CheckStage>,
    a: Seq<CheckAction>,
)
    requires
        none@.len() == 0,
        "```"@.is_prefix_of(content@),
        s.len() == 5,
        a.len() == 5,
        check_step_spec(CheckStage::Start, CheckEvent::Posted { content, bot: false }, s[0], a[0]),
        check_step_spec(s[0], CheckEvent::Parsed { error: None, contract: true }, s[1], a[1]),
        check_step_spec(s[1], CheckEvent::ScheduleLookedUp { lookup: ScheduleLookup::Found }, s[2], a[2]),
        check_step_spec(s[2], CheckEvent::ContractorsChecked { error: None }, s[3], a[3]),
        check_step_spec(s[3], CheckEvent::MembersFound { found: Some((n, none)) }, s[4], a[4]),
    ensures
        a[0].work == CheckWork::Parse,
        a[1].work == CheckWork::FindSchedule,
        a[2].work == CheckWork::CheckContractors,
        a[3].work == CheckWork::LinkAndFindMembers,
        views(a[3].replies@) == seq![":white_check_mark: AAR Valid!"@],
        a[4].work == CheckWork::Finish,
        views(a[4].replies@) == seq![found_count(n)],
        s[4] == CheckStage::Done,
{
}

/// A message a bot posted, or one without a code fence at either end, is
/// no report: it is left without a reply.
pub proof fn law_check_ignores(content: String, bot: bool, next: CheckStage, a: CheckAction)
    requires
        bot || !("```"@.is_prefix_of(content@) || "```"@.is_suffix_of(content@)),
        check_step_spec(CheckStage::Start, CheckEvent::Posted { content, bot }, next, a),
    ensures
        next == CheckStage::Done,
        a.replies@.len() == 0,
        a.work == CheckWork::Finish,
{
}

} // verus!
