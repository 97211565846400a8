//! The functions the assistant may call: their names and descriptions, how
//! their lists of names are read, and what they report.
use vstd::prelude::*;

use crate::text::{chars_of, decimal, push_chars, views};

verus! {

/// One entry of a `names` argument: a text, a number, or anything else.
#[derive(Clone, Debug)]
pub enum ArgName {
    Text(String),
    Id(u64),
    Other,
}

/// The names an argument list gives, numbers written in decimal; `None`
/// when an entry is neither a text nor a number.
pub open spec fn names_spec(items: Seq<ArgName>) -> Option<Seq<Seq<char>>>
    decreases items.len(),
{
    if items.len() == 0 {
        Some(Seq::empty())
    } else {
        let first = match items[0] {
            ArgName::Text(s) => Some(s@),
            ArgName::Id(n) => Some(decimal(n as nat)),
            ArgName::Other => None,
        };
        match (first, names_spec(items.drop_first())) {
            (Some(f), Some(rest)) => Some(seq![f] + rest),
            _ => None,
        }
    }
}

/// The names an argument list gives (see `names_spec`).
pub fn names_of(items: &Vec<ArgName>) -> (r: Option<Vec<String>>)
    ensures
        r matches Some(v) ==> names_spec(items@) == Some(views(v@)),
        r is None ==> names_spec(items@) is None,
{
    let mut out: Vec<String> = Vec::new();
    let mut i: usize = 0;
    assert(items@.skip(0) == items@);
    while i < items.len()
        invariant
            i <= items.len(),
            names_spec(items@) == (match names_spec(items@.skip(i as int)) {
                Some(rest) => Some(views(out@) + rest),
                None => None,
            }),
        decreases items.len() - i,
    {
        proof {
            assert(items@.skip(i as int)[0] == items@[i as int]);
            assert(items@.skip(i as int).drop_first() == items@.skip(i + 1));
        }
        let ghost before = out@;
        match &items[i] {
            ArgName::Text(s) => {
                out.push(s.clone());
            },
            ArgName::Id(n) => {
                out.push(crate::text::u64_text(*n));
            },
            ArgName::Other => {
                return None;
            },
        }
        proof {
            assert(views(out@) == views(before).push(out@.last()@));
            match names_spec(items@.skip(i + 1)) {
                Some(rest) => {
                    assert(views(before) + (seq![out@.last()@] + rest) == views(out@) + rest);
                },
                None => {},
            }
        }
        i += 1;
    }
    proof {
        assert(items@.skip(i as int).len() == 0);
        assert(views(out@) + Seq::<Seq<char>>::empty() == views(out@));
    }
    Some(out)
}

/// The names an argument list gives where only texts are accepted; `None`
/// when an entry is not a text.
pub open spec fn text_names_spec(items: Seq<ArgName>) -> Option<Seq<Seq<char>>> {
    if forall|i: int| 0 <= i < items.len() ==> (#[trigger] items[i]) is Text {
        names_spec(items)
    } else {
        None
    }
}

proof fn lemma_text_names(items: Seq<ArgName>)
    requires
        forall|i: int| 0 <= i < items.len() ==> (#[trigger] items[i]) is Text,
    ensures
        names_spec(items) is Some,
    decreases items.len(),
{
    if items.len() > 0 {
        assert forall|i: int| 0 <= i < items.drop_first().len() implies (
        #[trigger] items.drop_first()[i]) is Text by {
            assert(items.drop_first()[i] == items[i + 1]);
        }
        lemma_text_names(items.drop_first());
        assert(items[0] is Text);
    }
}

/// The names an argument list gives when all are texts (see `text_names_spec`).
pub fn text_names_of(items: &Vec<ArgName>) -> (r: Option<Vec<String>>)
    ensures
        r matches Some(v) ==> text_names_spec(items@) == Some(views(v@)),
        r is None ==> text_names_spec(items@) is None,
{
    let mut i: usize = 0;
    while i < items.len()
        invariant
            i <= items.len(),
            forall|j: int| 0 <= j < i ==> (#[trigger] items@[j]) is Text,
        decreases items.len() - i,
    {
        match &items[i] {
            ArgName::Text(_) => {},
            _ => {
                return None;
            },
        }
        i += 1;
    }
    proof {
        lemma_text_names(items@);
    }
    names_of(items)
}

/// Reports the balances of members, or of the company.
pub struct GetBalance {}

/// Times members out.
pub struct Timeout {}

/// Looks up the ids of members by name.
pub struct LookupId {}

impl GetBalance {
    /// The name the assistant calls this function by.
    pub fn name(&self) -> (r: &'static str)
        ensures
            r@ == "bank_get_balance"@,
    {
        "bank_get_balance"
    }

    /// What the assistant is told this function does.
    pub fn desc(&self) -> (r: &'static str)
        ensures
            r@
                == "Get's the balance of a member or the company. use 'Ctirad Brodsky' for company balance"@,
    {
        "Get's the balance of a member or the company. use 'Ctirad Brodsky' for company balance"
    }
}

impl Timeout {
    /// The name the assistant calls this function by.
    pub fn name(&self) -> (r: &'static str)
        ensures
            r@ == "timeout"@,
    {
        "timeout"
    }

    /// What the assistant is told this function does.
    pub fn desc(&self) -> (r: &'static str)
        ensures
            r@ == "Timeout a user for being innapropriate or breaking the rules"@,
    {
        "Timeout a user for being innapropriate or breaking the rules"
    }
}

impl LookupId {
    /// The name the assistant calls this function by.
    pub fn name(&self) -> (r: &'static str)
        ensures
            r@ == "names_lookup_members"@,
    {
        "names_lookup_members"
    }

    /// What the assistant is told this function does.
    pub fn desc(&self) -> (r: &'static str)
        ensures
            r@
                == "Looks up the ids of the given names, only members that exist in the company will be in the response"@,
    {
        "Looks up the ids of the given names, only members that exist in the company will be in the response"
    }
}

/// The balances of one member.
#[derive(Clone, Copy, Debug, PartialEq, Eq, Structural)]
pub struct MemberBalance {
    pub member: u64,
    pub bank: i64,
    pub locker: i64,
    pub loadout: i64,
}

/// One entry of a balance report.
#[derive(Clone, Copy, Debug, PartialEq, Eq, Structural)]
pub enum BalanceEntry {
    /// The company's balance.
    Company(i64),
    /// A member's bank, locker and loadout balances.
    Member(MemberBalance),
}

/// The entries reported for one member: the company's balance first when
/// the member is the company's account, then the member's balances.
pub open spec fn entries_for(b: MemberBalance, company: u64) -> Seq<BalanceEntry> {
    if b.member == company {
        seq![BalanceEntry::Company(b.bank), BalanceEntry::Member(b)]
    } else {
        seq![BalanceEntry::Member(b)]
    }
}

/// The balance report of the members, in their order.
pub open spec fn balance_report_spec(members: Seq<MemberBalance>, company: u64) -> Seq<BalanceEntry>
    decreases members.len(),
{
    if members.len() == 0 {
        Seq::empty()
    } else {
        balance_report_spec(members.drop_last(), company) + entries_for(members.last(), company)
    }
}

/// The balance report of the members (see `balance_report_spec`).
pub fn balance_report(members: &Vec<MemberBalance>, company: u64) -> (r: Vec<BalanceEntry>)
    ensures
        r@ == balance_report_spec(members@, company),
{
    let mut r: Vec<BalanceEntry> = Vec::new();
    let mut i: usize = 0;
    while i < members.len()
        invariant
            i <= members.len(),
            r@ == balance_report_spec(members@.take(i as int), company),
        decreases members.len() - i,
    {
        proof {
            assert(members@.take(i + 1).drop_last() == members@.take(i as int));
            assert(members@.take(i + 1).last() == members@[i as int]);
        }
        let b = members[i];
        if b.member == company {
            r.push(BalanceEntry::Company(b.bank));
        }
        r.push(BalanceEntry::Member(b));
        i += 1;
    }
    assert(members@.take(members.len() as int) == members@);
    r
}

/// The line logged when a member is timed out: the member, the duration as
/// it was given, and the reason, or that none was given.
pub open spec fn timeout_log_spec(member: u64, duration: Seq<char>, reason: Option<Seq<char>>) -> Seq<
    char,
> {
    "Timed out user <@"@ + decimal(member as nat) + "> for "@ + duration + " minutes\nReason: "@
        + match reason {
        Some(r) => r,
        None => "No reason provided"@,
    }
}

/// The line logged when a member is timed out (see `timeout_log_spec`).
pub fn timeout_log(member: u64, duration: &str, reason: Option<&str>) -> (r: String)
    ensures
        r@ == timeout_log_spec(
            member,
            duration@,
            match reason {
                Some(t) => Some(t@),
                None => None,
            },
        ),
{
    let mut r = String::new();
    push_chars(&mut r, &chars_of("Timed out user <@"));
    crate::text::push_decimal(&mut r, member);
    push_chars(&mut r, &chars_of("> for "));
    push_chars(&mut r, &chars_of(duration));
    push_chars(&mut r, &chars_of(" minutes\nReason: "));
    match reason {
        Some(t) => push_chars(&mut r, &chars_of(t)),
        None => push_chars(&mut r, &chars_of("No reason provided")),
    }
    r
}

/// The message a member who was timed out receives: the duration and the
/// reason, each as it was given.
pub fn timeout_notice(duration: &str, reason: &str) -> (r: String)
    ensures
        r@ == "You have been timed out for "@ + duration@ + " minutes\nReason: "@ + reason@,
{
    let mut r = String::new();
    push_chars(&mut r, &chars_of("You have been timed out for "));
    push_chars(&mut r, &chars_of(duration));
    push_chars(&mut r, &chars_of(" minutes\nReason: "));
    push_chars(&mut r, &chars_of(reason));
    r
}

/// What the assistant's timeout found or did for one named member.
#[derive(Clone, Copy, Debug, PartialEq, Eq, Structural)]
pub enum TimeoutEvent {
    /// The member could not be fetched.
    Missing,
    /// The member is timed out already.
    AlreadyTimedOut,
    /// The member can be timed out.
    Present,
    /// Timing the member out succeeded or failed.
    Applied(bool),
}

/// What the assistant's timeout does next for one member.
#[derive(Clone, Copy, Debug, PartialEq, Eq, Structural)]
pub enum TimeoutAction {
    /// Go on to the next member.
    Skip,
    /// Time the member out.
    Apply,
    /// Log the timeout and tell the member, then go on.
    Notify,
    /// Stop and answer with the error.
    Fail,
}

/// The next action of the assistant's timeout: members who cannot be
/// fetched or are timed out already are skipped, the others timed out; a
/// failure stops the whole run, a success is logged and told.
pub fn timeout_step(event: TimeoutEvent) -> (r: TimeoutAction)
    ensures
        r == match event {
            TimeoutEvent::Missing | TimeoutEvent::AlreadyTimedOut => TimeoutAction::Skip,
            TimeoutEvent::Present => TimeoutAction::Apply,
            TimeoutEvent::Applied(ok) => if ok {
                TimeoutAction::Notify
            } else {
                TimeoutAction::Fail
            },
        },
{
    match event {
        TimeoutEvent::Missing | TimeoutEvent::AlreadyTimedOut => TimeoutAction::Skip,
        TimeoutEvent::Present => TimeoutAction::Apply,
        TimeoutEvent::Applied(ok) => if ok {
            TimeoutAction::Notify
        } else {
            TimeoutAction::Fail
        },
    }
}

} // verus!
