//! What the bot does for the requests and events other services send it:
//! which roles to add, member lookups, the activity role, the weekly tips,
//! the RSVP report, pull request threads and the wallet pass.
use vstd::prelude::*;

use crate::text::push_lit;

use crate::handler::same_text;
use crate::schedule::{MissionRsvp, Rsvp};
use crate::text::{chars_of, decimal, parse_u64_spec, push_chars, string_of, views};

verus! {


/// The roles requested that the member does not hold yet, in the order requested.
pub open spec fn roles_to_add_spec(requested: Seq<u64>, held: Seq<u64>) -> Seq<u64> {
    requested.filter(|r: u64| !held.contains(r))
}

/// The roles to add to a member (see `roles_to_add_spec`).
pub fn roles_to_add(requested: &Vec<u64>, held: &Vec<u64>) -> (r: Vec<u64>)
    ensures
        r@ == roles_to_add_spec(requested@, held@),
{
    let mut r: Vec<u64> = Vec::new();
    let mut i: usize = 0;
    while i < requested.len()
        invariant
            i <= requested.len(),
            r@ == roles_to_add_spec(requested@.take(i as int), held@),
        decreases requested.len() - i,
    {
        proof {
            reveal(Seq::filter);
            assert(requested@.take(i + 1).drop_last() == requested@.take(i as int));
            assert(requested@.take(i + 1).last() == requested@[i as int]);
        }
        if !crate::certifications::contains_u64(held, requested[i]) {
            r.push(requested[i]);
        }
        i += 1;
    }
    assert(requested@.take(requested.len() as int) == requested@);
    r
}

/// The roles added are exactly the requested roles the member lacks: none
/// of them is held already, and every requested role not held is added.
pub proof fn law_roles_to_add(requested: Seq<u64>, held: Seq<u64>)
    ensures
        forall|i: int|
            0 <= i < roles_to_add_spec(requested, held).len() ==> !held.contains(
                #[trigger] roles_to_add_spec(requested, held)[i],
            ) && requested.contains(roles_to_add_spec(requested, held)[i]),
        forall|j: int|
            0 <= j < requested.len() && !held.contains(#[trigger] requested[j])
                ==> roles_to_add_spec(requested, held).contains(requested[j]),
{
    broadcast use vstd::seq_lib::group_filter_ensures;

    let f = roles_to_add_spec(requested, held);
    assert forall|i: int| 0 <= i < f.len() implies !held.contains(#[trigger] f[i]) && requested.contains(
        f[i],
    ) by {
        assert((|r: u64| !held.contains(r))(f[i]));
        assert(f.contains(f[i]));
        requested.lemma_filter_contains_rev(|r: u64| !held.contains(r), f[i]);
    }
    assert forall|j: int| 0 <= j < requested.len() && !held.contains(#[trigger] requested[j]) implies f.contains(
        requested[j],
    ) by {
        assert((|r: u64| !held.contains(r))(requested[j]));
    }
}

/// The thread a pull request's stored thread id names: its number, or 0
/// when it is none.
pub fn thread_id_of(stored: &str) -> (r: u64)
    ensures
        r == (match parse_u64_spec(stored@) {
            Some(n) => n,
            None => 0,
        }),
{
    match crate::text::parse_u64(stored) {
        Some(n) => n,
        None => 0,
    }
}

/// The message posted in a pull request's thread when a member is added.
pub fn thread_member_added(user: u64, reason: &str) -> (r: String)
    ensures
        r@ == "Added <@"@ + decimal(user as nat) + "> to the thread: "@ + reason@,
{
    let mut r = String::new();
    push_lit(&mut r, "Added <@");
    crate::text::push_decimal(&mut r, user);
    push_lit(&mut r, "> to the thread: ");
    push_lit(&mut r, reason);
    r
}

/// A member of the guild by their names.
pub struct NamedMember {
    pub nick: Option<String>,
    pub user_name: String,
    pub id: u64,
}

/// What a member is called: their nickname, else their user name.
pub fn username(nick: &Option<String>, user_name: &String) -> (r: String)
    ensures
        r@ == (match nick {
            Some(n) => n@,
            None => user_name@,
        }),
{
    match nick {
        Some(n) => n.clone(),
        None => user_name.clone(),
    }
}

/// The member goes by `name`: as their nickname or their user name.
pub open spec fn goes_by(m: NamedMember, name: Seq<char>) -> bool {
    (m.nick matches Some(n) && n@ == name) || m.user_name@ == name
}

/// The id of the first member who goes by `name`.
pub open spec fn member_by_name_spec(ms: Seq<NamedMember>, name: Seq<char>) -> Option<u64>
    decreases ms.len(),
{
    if ms.len() == 0 {
        None
    } else if goes_by(ms[0], name) {
        Some(ms[0].id)
    } else {
        member_by_name_spec(ms.drop_first(), name)
    }
}

/// The id of the first member who goes by `name` (see `member_by_name_spec`).
pub fn member_by_name(ms: &Vec<NamedMember>, name: &str) -> (r: Option<u64>)
    ensures
        r == member_by_name_spec(ms@, name@),
{
    let mut i: usize = 0;
    assert(ms@.skip(0) == ms@);
    while i < ms.len()
        invariant
            i <= ms.len(),
            member_by_name_spec(ms@, name@) == member_by_name_spec(ms@.skip(i as int), name@),
        decreases ms.len() - i,
    {
        proof {
            assert(ms@.skip(i as int)[0] == ms@[i as int]);
            assert(ms@.skip(i as int).drop_first() == ms@.skip(i + 1));
        }
        let m = &ms[i];
        let by_nick = match &m.nick {
            Some(n) => same_text(n.as_str(), name),
            None => false,
        };
        if by_nick || same_text(m.user_name.as_str(), name) {
            return Some(m.id);
        }
        i += 1;
    }
    None
}

/// The ids of the active members: every entry but `0`, read as a number;
/// `None` when an entry is no number.
pub open spec fn active_ids_spec(active: Seq<Seq<char>>) -> Option<Seq<u64>>
    decreases active.len(),
{
    if active.len() == 0 {
        Some(Seq::empty())
    } else {
        let rest = active_ids_spec(active.drop_first());
        if active[0] == "0"@ {
            rest
        } else {
            match (parse_u64_spec(active[0]), rest) {
                (Some(n), Some(r)) => Some(seq![n] + r),
                _ => None,
            }
        }
    }
}

/// The ids of the active members (see `active_ids_spec`).
pub fn active_ids(active: &Vec<String>) -> (r: Option<Vec<u64>>)
    ensures
        r matches Some(v) ==> active_ids_spec(views(active@)) == Some(v@),
        r is None ==> active_ids_spec(views(active@)) is None,
{
    let ghost all = views(active@);
    let mut out: Vec<u64> = Vec::new();
    let mut i: usize = 0;
    assert(all.skip(0) == all);
    while i < active.len()
        invariant
            i <= active.len(),
            all == views(active@),
            active_ids_spec(all) == (match active_ids_spec(all.skip(i as int)) {
                Some(rest) => Some(out@ + rest),
                None => None,
            }),
        decreases active.len() - i,
    {
        proof {
            assert(all.skip(i as int)[0] == active@[i as int]@);
            assert(all.skip(i as int).drop_first() == all.skip(i + 1));
        }
        if !same_text(active[i].as_str(), "0") {
            match crate::text::parse_u64(active[i].as_str()) {
                Some(n) => {
                    let ghost before = out@;
                    out.push(n);
                    proof {
                        match active_ids_spec(all.skip(i + 1)) {
                            Some(rest) => {
                                assert(before + (seq![n] + rest) == out@ + rest);
                            },
                            None => {},
                        }
                    }
                },
                None => {
                    return None;
                },
            }
        }
        i += 1;
    }
    proof {
        assert(all.skip(i as int).len() == 0);
        assert(out@ + Seq::<u64>::empty() == out@);
    }
    Some(out)
}

/// What happens to a member's activity role.
#[derive(Clone, Copy, Debug, PartialEq, Eq, Structural)]
pub enum ActivityChange {
    Add,
    Remove,
    Keep,
}

/// An active member without the role gets it; a member with the role who
/// is no longer active loses it.
pub open spec fn activity_change_spec(active: Seq<u64>, member: u64, has_role: bool) -> ActivityChange {
    if active.contains(member) && !has_role {
        ActivityChange::Add
    } else if !active.contains(member) && has_role {
        ActivityChange::Remove
    } else {
        ActivityChange::Keep
    }
}

/// What happens to a member's activity role (see `activity_change_spec`).
pub fn activity_change(active: &Vec<u64>, member: u64, has_role: bool) -> (r: ActivityChange)
    ensures
        r == activity_change_spec(active@, member, has_role),
{
    let is_active = crate::certifications::contains_u64(active, member);
    if is_active && !has_role {
        ActivityChange::Add
    } else if !is_active && has_role {
        ActivityChange::Remove
    } else {
        ActivityChange::Keep
    }
}

/// After the change, a member holds the role exactly when they are active.
pub proof fn law_activity_role_matches(active: Seq<u64>, member: u64, has_role: bool)
    ensures
        (match activity_change_spec(active, member, has_role) {
            ActivityChange::Add => true,
            ActivityChange::Remove => false,
            ActivityChange::Keep => has_role,
        }) == active.contains(member),
{
}

/// The line logged when a member's activity role changed; `None` when it did not.
pub fn activity_log(change: ActivityChange, member: u64) -> (r: Option<String>)
    ensures
        change == ActivityChange::Add ==> (r matches Some(t) && t@ == "<@"@ + decimal(member as nat)
            + "> is now active"@),
        change == ActivityChange::Remove ==> (r matches Some(t) && t@ == "<@"@ + decimal(
            member as nat,
        ) + "> is no longer active"@),
        change == ActivityChange::Keep ==> r is None,
{
    let tail = match change {
        ActivityChange::Add => "> is now active",
        ActivityChange::Remove => "> is no longer active",
        ActivityChange::Keep => {
            return None;
        },
    };
    let mut r = String::new();
    push_lit(&mut r, "<@");
    crate::text::push_decimal(&mut r, member);
    push_lit(&mut r, tail);
    Some(r)
}

/// The position of the last `.` in `s`, or -1.
pub open spec fn last_dot(s: Seq<char>) -> int
    decreases s.len(),
{
    if s.len() == 0 {
        -1
    } else if s.last() == '.' {
        s.len() - 1
    } else {
        last_dot(s.drop_last())
    }
}

proof fn lemma_last_dot(s: Seq<char>)
    ensures
        -1 <= last_dot(s) < s.len(),
        last_dot(s) >= 0 ==> s[last_dot(s)] == '.',
        forall|k: int| last_dot(s) < k < s.len() ==> s[k] != '.',
    decreases s.len(),
{
    if s.len() > 0 && s.last() != '.' {
        lemma_last_dot(s.drop_last());
        assert forall|k: int| last_dot(s) < k < s.len() implies s[k] != '.' by {
            if k < s.len() - 1 {
                assert(s[k] == s.drop_last()[k]);
            }
        }
    }
}

/// A file is a markdown file when its extension, the part after its last
/// `.` where that is not its first character, is `md`.
pub open spec fn is_markdown_spec(name: Seq<char>) -> bool {
    let k = last_dot(name);
    k > 0 && name.skip(k + 1) == "md"@
}

/// Whether a file is a markdown file (see `is_markdown_spec`).
pub fn is_markdown(name: &str) -> (r: bool)
    ensures
        r == is_markdown_spec(name@),
{
    let v = chars_of(name);
    let mut k: usize = v.len();
    proof {
        lemma_last_dot(v@);
        assert(v@.subrange(0, v.len() as int) == v@);
    }
    while k > 0 && v[k - 1] != '.'
        invariant
            k <= v.len(),
            v@ == name@,
            last_dot(v@) == last_dot(v@.subrange(0, k as int)),
        decreases k,
    {
        assert(v@.subrange(0, k as int).drop_last() == v@.subrange(0, k - 1));
        k -= 1;
    }
    if k <= 1 {
        proof {
            if k == 1 {
                assert(last_dot(v@.subrange(0, 1)) == 0);
            }
        }
        return false;
    }
    proof {
        assert(last_dot(v@.subrange(0, k as int)) == k - 1);
    }
    let md = chars_of("md");
    let mut tail: Vec<char> = Vec::new();
    let mut j: usize = k;
    while j < v.len()
        invariant
            k <= j <= v.len(),
            tail@ == v@.subrange(k as int, j as int),
        decreases v.len() - j,
    {
        tail.push(v[j]);
        assert(v@.subrange(k as int, j + 1) == v@.subrange(k as int, j as int).push(v@[j as int]));
        j += 1;
    }
    assert(tail@ == v@.skip(k as int));
    tail.len() == md.len() && crate::text::starts_with_chars(&tail, &md) && {
        proof {
            assert(md@.is_prefix_of(tail@) && tail@.len() == md@.len() ==> tail@ == md@) by {
                if md@.is_prefix_of(tail@) && tail@.len() == md@.len() {
                    assert(tail@ == tail@.subrange(0, md@.len() as int));
                }
            }
        }
        true
    }
}

/// Calls rand's `IndexedRandom::choose` on a list of positions with the
/// thread's generator: `None` exactly when the list is empty, else one of
/// its entries; nothing is claimed of which.
#[verifier::external_body]
fn choose_index(positions: &Vec<usize>) -> (r: Option<usize>)
    ensures
        r is None <==> positions@.len() == 0,
        r matches Some(p) ==> positions@.contains(p),
{
    rand::seq::IndexedRandom::choose(positions.as_slice(), &mut rand::rng()).copied()
}

/// Picks the tip to post: one of the markdown files among `names`, at
/// random; `None` when there is none.
pub fn pick_tip(names: &Vec<String>) -> (r: Option<usize>)
    ensures
        r is None <==> (forall|i: int| 0 <= i < names@.len() ==> !is_markdown_spec(#[trigger] names@[i]@)),
        r matches Some(i) ==> i < names@.len() && is_markdown_spec(names@[i as int]@),
{
    let mut positions: Vec<usize> = Vec::new();
    let mut i: usize = 0;
    while i < names.len()
        invariant
            i <= names.len(),
            forall|k: int| 0 <= k < positions@.len() ==> (#[trigger] positions@[k]) < i
                && is_markdown_spec(names@[positions@[k] as int]@),
            forall|j: int| 0 <= j < i && is_markdown_spec(#[trigger] names@[j]@) ==> positions@.contains(
                j as usize,
            ),
        decreases names.len() - i,
    {
        let ghost before = positions@;
        if is_markdown(names[i].as_str()) {
            positions.push(i);
        }
        proof {
            assert forall|j: int| 0 <= j < i + 1 && is_markdown_spec(#[trigger] names@[j]@) implies positions@.contains(
                j as usize,
            ) by {
                if j < i {
                    let k = choose|k: int| 0 <= k < before.len() && before[k] == j as usize;
                    assert(positions@[k] == j as usize);
                } else {
                    assert(positions@[positions@.len() - 1] == j as usize);
                }
            }
        }
        i += 1;
    }
    let r = choose_index(&positions);
    proof {
        match r {
            Some(p) => {
                let k = choose|k: int| 0 <= k < positions@.len() && positions@[k] == p;
                assert(positions@[k] < i);
            },
            None => {
                assert forall|j: int| 0 <= j < names@.len() implies !is_markdown_spec(
                    #[trigger] names@[j]@,
                ) by {
                    if is_markdown_spec(names@[j]@) {
                        assert(positions@.contains(j as usize));
                    }
                }
            },
        }
        if r is Some {
            let p = r->0;
            assert(is_markdown_spec(names@[p as int]@));
        }
    }
    r
}

/// The weekly tip as it is posted.
pub fn tip_message(tip: &str) -> (r: String)
    ensures
        r@ == "## Tip of the Week\n\n"@ + tip@,
{
    let mut r = String::new();
    push_lit(&mut r, "## Tip of the Week\n\n");
    push_lit(&mut r, tip);
    r
}

/// The extension of a tip's picture: the first of `webp`, `png` and `jpg`
/// for which a file exists beside the tip; `None` when there is none.
pub fn tip_image(webp: bool, png: bool, jpg: bool) -> (r: Option<&'static str>)
    ensures
        webp ==> (r matches Some(e) && e@ == "webp"@),
        !webp && png ==> (r matches Some(e) && e@ == "png"@),
        !webp && !png && jpg ==> (r matches Some(e) && e@ == "jpg"@),
        !webp && !png && !jpg ==> r is None,
{
    if webp {
        Some("webp")
    } else if png {
        Some("png")
    } else if jpg {
        Some("jpg")
    } else {
        None
    }
}

/// How an answer is written in the RSVP report.
pub open spec fn rsvp_word(state: Rsvp) -> Seq<char> {
    match state {
        Rsvp::Yes => "Yes"@,
        Rsvp::Maybe => "Maybe"@,
        Rsvp::No => "No"@,
    }
}

/// The line of the RSVP report for an answer other than yes.
pub open spec fn report_line(r: MissionRsvp) -> Seq<char> {
    "<@"@ + r.member@ + ">: "@ + rsvp_word(r.state) + " ("@ + match r.details {
        Some(d) => d@,
        None => Seq::empty(),
    } + ")\n"@
}

/// The RSVP report of a mission about to start: a line for each answer
/// other than yes, in the order of the answers.
pub open spec fn rsvp_report_spec(rsvps: Seq<MissionRsvp>) -> Seq<char>
    decreases rsvps.len(),
{
    if rsvps.len() == 0 {
        Seq::empty()
    } else {
        rsvp_report_spec(rsvps.drop_last()) + if rsvps.last().state == Rsvp::Yes {
            Seq::empty()
        } else {
            report_line(rsvps.last())
        }
    }
}

/// The RSVP report of a mission about to start (see `rsvp_report_spec`).
pub fn rsvp_report(rsvps: &Vec<MissionRsvp>) -> (r: String)
    ensures
        r@ == rsvp_report_spec(rsvps@),
{
    let mut r = String::new();
    let mut i: usize = 0;
    while i < rsvps.len()
        invariant
            i <= rsvps.len(),
            r@ == rsvp_report_spec(rsvps@.take(i as int)),
        decreases rsvps.len() - i,
    {
        proof {
            assert(rsvps@.take(i + 1).drop_last() == rsvps@.take(i as int));
            assert(rsvps@.take(i + 1).last() == rsvps@[i as int]);
        }
        let a = &rsvps[i];
        match a.state {
            Rsvp::Yes => {
                assert(r@ + Seq::<char>::empty() == r@);
            },
            _ => {
                push_lit(&mut r, "<@");
                push_lit(&mut r, a.member.as_str());
                push_lit(&mut r, ">: ");
                match a.state {
                    Rsvp::Maybe => push_lit(&mut r, "Maybe"),
                    _ => push_lit(&mut r, "No"),
                }
                push_lit(&mut r, " (");
                match &a.details {
                    Some(d) => push_lit(&mut r, d.as_str()),
                    None => {},
                }
                push_lit(&mut r, ")\n");
            },
        }
        i += 1;
    }
    assert(rsvps@.take(rsvps.len() as int) == rsvps@);
    r
}

/// The members who answered yes, as ids; `None` when one is no number.
pub open spec fn attending_spec(rsvps: Seq<MissionRsvp>) -> Option<Seq<u64>>
    decreases rsvps.len(),
{
    if rsvps.len() == 0 {
        Some(Seq::empty())
    } else {
        let rest = attending_spec(rsvps.drop_first());
        if rsvps[0].state != Rsvp::Yes {
            rest
        } else {
            match (parse_u64_spec(rsvps[0].member@), rest) {
                (Some(n), Some(r)) => Some(seq![n] + r),
                _ => None,
            }
        }
    }
}

/// The members who answered yes (see `attending_spec`).
pub fn attending(rsvps: &Vec<MissionRsvp>) -> (r: Option<Vec<u64>>)
    ensures
        r matches Some(v) ==> attending_spec(rsvps@) == Some(v@),
        r is None ==> attending_spec(rsvps@) is None,
{
    let mut out: Vec<u64> = Vec::new();
    let mut i: usize = 0;
    assert(rsvps@.skip(0) == rsvps@);
    while i < rsvps.len()
        invariant
            i <= rsvps.len(),
            attending_spec(rsvps@) == (match attending_spec(rsvps@.skip(i as int)) {
                Some(rest) => Some(out@ + rest),
                None => None,
            }),
        decreases rsvps.len() - i,
    {
        proof {
            assert(rsvps@.skip(i as int)[0] == rsvps@[i as int]);
            assert(rsvps@.skip(i as int).drop_first() == rsvps@.skip(i + 1));
        }
        if rsvps[i].state == Rsvp::Yes {
            match crate::text::parse_u64(rsvps[i].member.as_str()) {
                Some(n) => {
                    let ghost before = out@;
                    out.push(n);
                    proof {
                        match attending_spec(rsvps@.skip(i + 1)) {
                            Some(rest) => {
                                assert(before + (seq![n] + rest) == out@ + rest);
                            },
                            None => {},
                        }
                    }
                },
                None => {
                    return None;
                },
            }
        }
        i += 1;
    }
    proof {
        assert(rsvps@.skip(i as int).len() == 0);
        assert(out@ + Seq::<u64>::empty() == out@);
    }
    Some(out)
}

/// The line logged with a mission's RSVP report.
pub fn rsvp_report_log(mission: &str, report: &str) -> (r: String)
    ensures
        r@ == "RSVP Report for "@ + mission@ + ": \n"@ + report@,
{
    let mut r = String::new();
    push_lit(&mut r, "RSVP Report for ");
    push_lit(&mut r, mission);
    push_lit(&mut r, ": \n");
    push_lit(&mut r, report);
    r
}

/// The message id of a schedule post recorded as `channel:message`: the
/// part after the first `:`, read as a number; `None` when there is no `:`
/// or no number after it.
pub open spec fn post_message_id_spec(recorded: Seq<char>) -> Option<u64> {
    match crate::text::after_first_spec(recorded, ":"@) {
        Some(rest) => parse_u64_spec(rest),
        None => None,
    }
}

/// The message id of a schedule post (see `post_message_id_spec`).
pub fn post_message_id(recorded: &str) -> (r: Option<u64>)
    ensures
        r == post_message_id_spec(recorded@),
{
    match crate::text::after_first(&chars_of(recorded), &chars_of(":")) {
        Some(rest) => crate::text::parse_u64_chars(&rest),
        None => None,
    }
}

/// A member's net worth: cash, locker and loadout together.
pub fn net_worth(cash: i32, locker: i32, loadout: i32) -> (r: i32)
    requires
        i32::MIN <= cash + locker <= i32::MAX,
        i32::MIN <= cash + locker + loadout <= i32::MAX,
    ensures
        r == cash + locker + loadout,
{
    cash + locker + loadout
}

/// The ids of a member's wallet pass: the issuer's balance class, and the
/// member's pass in it.
pub fn wallet_ids(issuer: &str, member: u64) -> (r: (String, String))
    ensures
        r.0@ == issuer@ + ".balance"@,
        r.1@ == issuer@ + ".balance_"@ + decimal(member as nat),
{
    let mut class = String::new();
    push_lit(&mut class, issuer);
    push_lit(&mut class, ".balance");
    let mut pass = String::new();
    push_lit(&mut pass, issuer);
    push_lit(&mut pass, ".balance_");
    crate::text::push_decimal(&mut pass, member);
    (class, pass)
}

/// The current mission is looked up on every fifth minute's tick.
pub fn tick_due(minute: u8) -> (r: bool)
    ensures
        r <==> minute % 5 == 0,
{
    minute % 5 == 0
}

/// Looking a member up by name finds the first member who goes by it (as
/// nickname or user name), and finds nobody only when no member does.
pub proof fn law_member_by_name(ms: Seq<NamedMember>, name: Seq<char>)
    ensures
        member_by_name_spec(ms, name) matches Some(id) ==> exists|i: int|
            0 <= i < ms.len() && goes_by(#[trigger] ms[i], name) && ms[i].id == id && forall|k: int|
                0 <= k < i ==> !goes_by(#[trigger] ms[k], name),
        member_by_name_spec(ms, name) is None <==> forall|i: int|
            0 <= i < ms.len() ==> !goes_by(#[trigger] ms[i], name),
    decreases ms.len(),
{
    if ms.len() > 0 {
        law_member_by_name(ms.drop_first(), name);
        if !goes_by(ms[0], name) {
            assert forall|i: int| 1 <= i < ms.len() implies #[trigger] ms[i] == ms.drop_first()[i - 1] by {}
            if let Some(id) = member_by_name_spec(ms, name) {
                let j = choose|j: int|
                    0 <= j < ms.drop_first().len() && goes_by(#[trigger] ms.drop_first()[j], name)
                        && ms.drop_first()[j].id == id && forall|k: int|
                        0 <= k < j ==> !goes_by(#[trigger] ms.drop_first()[k], name);
                assert(ms[j + 1] == ms.drop_first()[j]);
                assert forall|k: int| 0 <= k < j + 1 implies !goes_by(#[trigger] ms[k], name) by {
                    if k > 0 {
                        assert(ms[k] == ms.drop_first()[k - 1]);
                    }
                }
            }
            if member_by_name_spec(ms, name) is None {
                assert forall|i: int| 0 <= i < ms.len() implies !goes_by(#[trigger] ms[i], name) by {
                    if i > 0 {
                        assert(ms[i] == ms.drop_first()[i - 1]);
                    }
                }
            } else {
                let id = member_by_name_spec(ms, name)->0;
                let j = choose|j: int|
                    0 <= j < ms.drop_first().len() && goes_by(#[trigger] ms.drop_first()[j], name)
                        && ms.drop_first()[j].id == id && forall|k: int|
                        0 <= k < j ==> !goes_by(#[trigger] ms.drop_first()[k], name);
                assert(goes_by(ms[j + 1], name));
            }
        }
    }
}

/// A file named with a non-empty stem and the extension `md` is a
/// markdown tip; a name without a dot, or whose only dot starts it, is not.
pub proof fn law_markdown_names(stem: Seq<char>, name: Seq<char>)
    ensures
        stem.len() > 0 ==> is_markdown_spec(stem + ".md"@),
        (forall|i: int| 0 <= i < name.len() ==> name[i] != '.') ==> !is_markdown_spec(name),
        is_markdown_spec(name) ==> name.len() >= 4,
{
    reveal_strlit(".md");
    reveal_strlit("md");
    let full = stem + ".md"@;
    if stem.len() > 0 {
        assert(full.last() != '.');
        assert(full.drop_last().last() != '.');
        assert(full.drop_last().drop_last().last() == '.');
        assert(full.drop_last().drop_last() == stem + seq!['.']);
        assert(last_dot(full) == last_dot(full.drop_last()));
        assert(last_dot(full.drop_last()) == last_dot(full.drop_last().drop_last()));
        assert(last_dot(full) == stem.len());
        assert(full.skip(stem.len() as int + 1) =~= "md"@);
    }
    lemma_last_dot(name);
    if is_markdown_spec(name) {
        assert(name.skip(last_dot(name) + 1).len() == 2);
    }
}

/// A member's activity role follows their activity: it is added to an
/// active member without it, taken from an inactive member with it, and
/// otherwise left alone.
pub proof fn law_activity_change(active: Seq<u64>, member: u64, has_role: bool)
    ensures
        active.contains(member) && !has_role ==> activity_change_spec(active, member, has_role) == ActivityChange::Add,
        !active.contains(member) && has_role ==> activity_change_spec(active, member, has_role) == ActivityChange::Remove,
        active.contains(member) == has_role ==> activity_change_spec(active, member, has_role) == ActivityChange::Keep,
{
}

/// A schedule post recorded as `channel:message` gives back its message id.
pub proof fn law_post_message_id(channel: u64, message: u64)
    ensures
        post_message_id_spec(decimal(channel as nat) + ":"@ + decimal(message as nat)) == Some(message),
{
    reveal_strlit(":");
    let c = decimal(channel as nat);
    let d = decimal(message as nat);
    let s = c + ":"@ + d;
    crate::text::lemma_decimal_digits(channel as nat);
    crate::text::law_decimal_round_trip(message);
    assert(s.subrange(c.len() as int, c.len() as int + 1) =~= ":"@);
    assert(crate::text::occurs_at(s, ":"@, c.len() as int));
    assert forall|j: int| 0 <= j < c.len() implies !crate::text::occurs_at(s, ":"@, j) by {
        assert(s[j] == c[j]);
        assert(crate::text::is_digit(c[j]));
        if crate::text::occurs_at(s, ":"@, j) {
            assert(s.subrange(j, j + 1)[0] == s[j]);
        }
    }
    assert(crate::text::first_occurrence(s, ":"@, c.len() as int));
    assert(crate::text::contains_seq(s, ":"@));
    let i = choose|i: int| crate::text::first_occurrence(s, ":"@, i);
    crate::text::lemma_first_occurrence_unique(s, ":"@, i, c.len() as int);
    assert(s.skip(c.len() as int + 1) =~= d);
}

} // verus!
