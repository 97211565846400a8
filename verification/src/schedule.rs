//! The mission schedule: RSVPs and how they are listed, the texts of the
//! schedule, which missions are offered or posted, and mission briefings.
use vstd::prelude::*;

use crate::text::push_lit;

use crate::autocomplete::{first_choices, truncate_choices};
use crate::select::{kept, select};
use crate::text::{
    chars_of, decimal, int_text, join_spec, join_strings, lowercase, push_int, starts_with_chars,
    string_of, to_lowercase, views,
};

verus! {

/// An answer to a mission invitation.
#[derive(Clone, Copy, Debug, PartialEq, Eq, Structural)]
pub enum Rsvp {
    Yes,
    Maybe,
    No,
}

/// A member's answer to a scheduled mission.
pub struct MissionRsvp {
    pub member: String,
    pub state: Rsvp,
    pub details: Option<String>,
}

/// A mission on the schedule. `start` is in Unix seconds; the schedule
/// message is recorded as `channel:message` once posted.
pub struct ScheduledMission {
    pub id: String,
    pub mission: String,
    pub name: String,
    pub summary: String,
    pub start: i64,
    pub schedule_message_id: Option<String>,
}

/// The members who answered `state`, in the order of the answers.
pub open spec fn answered(rsvps: Seq<MissionRsvp>, state: Rsvp) -> Seq<Seq<char>>
    decreases rsvps.len(),
{
    if rsvps.len() == 0 {
        Seq::empty()
    } else {
        let prev = answered(rsvps.drop_last(), state);
        if rsvps.last().state == state {
            prev.push(rsvps.last().member@)
        } else {
            prev
        }
    }
}

/// The members who answered `state`, in the order of the answers.
pub fn members_answering(rsvps: &Vec<MissionRsvp>, state: Rsvp) -> (r: Vec<String>)
    ensures
        views(r@) == answered(rsvps@, state),
{
    let mut r: Vec<String> = Vec::new();
    let mut i: usize = 0;
    while i < rsvps.len()
        invariant
            i <= rsvps.len(),
            views(r@) == answered(rsvps@.take(i as int), state),
        decreases rsvps.len() - i,
    {
        proof {
            assert(rsvps@.take(i + 1).drop_last() == rsvps@.take(i as int));
            assert(rsvps@.take(i + 1).last() == rsvps@[i as int]);
        }
        if rsvps[i].state == state {
            let ghost before = r@;
            r.push(rsvps[i].member.clone());
            assert(views(r@) == views(before).push(rsvps@[i as int].member@));
        }
        i += 1;
    }
    assert(rsvps@.take(rsvps.len() as int) == rsvps@);
    r
}

/// Strict lexicographic order of texts, character by character (for UTF-8
/// this is also the order of their bytes, which `String`'s ordering uses).
pub open spec fn lex_lt(a: Seq<char>, b: Seq<char>) -> bool
    decreases a.len(),
{
    if a.len() == 0 {
        b.len() > 0
    } else if b.len() == 0 {
        false
    } else if a[0] != b[0] {
        a[0] < b[0]
    } else {
        lex_lt(a.drop_first(), b.drop_first())
    }
}

proof fn lemma_lex_total(a: Seq<char>, b: Seq<char>)
    ensures
        lex_lt(a, b) || lex_lt(b, a) || a == b,
        !(lex_lt(a, b) && lex_lt(b, a)),
    decreases a.len(),
{
    if a.len() > 0 && b.len() > 0 && a[0] == b[0] {
        lemma_lex_total(a.drop_first(), b.drop_first());
        if a.drop_first() == b.drop_first() {
            assert(a == seq![a[0]] + a.drop_first());
            assert(b == seq![b[0]] + b.drop_first());
        }
    }
}

proof fn lemma_lex_trans(a: Seq<char>, b: Seq<char>, c: Seq<char>)
    requires
        lex_lt(a, b),
        lex_lt(b, c),
    ensures
        lex_lt(a, c),
    decreases a.len(),
{
    if a.len() > 0 && b.len() > 0 && c.len() > 0 && a[0] == b[0] && b[0] == c[0] {
        lemma_lex_trans(a.drop_first(), b.drop_first(), c.drop_first());
    }
}

/// Whether `a` orders strictly before `b`.
pub fn lex_less(a: &Vec<char>, b: &Vec<char>) -> (r: bool)
    ensures
        r == lex_lt(a@, b@),
{
    let mut i: usize = 0;
    assert(a@.skip(0) == a@);
    assert(b@.skip(0) == b@);
    while i < a.len() && i < b.len() && a[i] == b[i]
        invariant
            i <= a.len(),
            i <= b.len(),
            lex_lt(a@, b@) == lex_lt(a@.skip(i as int), b@.skip(i as int)),
        decreases a.len() - i,
    {
        proof {
            assert(a@.skip(i as int).drop_first() == a@.skip(i + 1));
            assert(b@.skip(i as int).drop_first() == b@.skip(i + 1));
        }
        i += 1;
    }
    proof {
        if i < a.len() {
            assert(a@.skip(i as int)[0] == a@[i as int]);
        }
        if i < b.len() {
            assert(b@.skip(i as int)[0] == b@[i as int]);
        }
    }
    if i == a.len() {
        i < b.len()
    } else if i == b.len() {
        false
    } else {
        a[i] < b[i]
    }
}

/// An answer together with the display name of the member who gave it.
pub struct NamedRsvp {
    pub display_name: String,
    pub member: String,
}

/// Entry `i` is listed before entry `k`: its name orders first, or the
/// names are equal and it came first.
pub open spec fn name_before(s: Seq<NamedRsvp>, i: int, k: int) -> bool {
    lex_lt(s[i].display_name@, s[k].display_name@) || (s[i].display_name@ == s[k].display_name@
        && i < k)
}

/// `r` is `s` sorted by display name, equal names kept in their order:
/// `idx` gives where each entry of `r` came from in `s`.
pub open spec fn is_sorted_by_name(s: Seq<NamedRsvp>, r: Seq<NamedRsvp>, idx: Seq<int>) -> bool {
    &&& idx.len() == r.len()
    &&& r.len() == s.len()
    &&& forall|i: int| 0 <= i < r.len() ==> 0 <= #[trigger] idx[i] < s.len() && r[i] == s[idx[i]]
    &&& forall|i: int, k: int| 0 <= i < k < r.len() ==> name_before(s, #[trigger] idx[i], #[trigger] idx[k])
    &&& forall|j: int| 0 <= j < s.len() ==> #[trigger] covers(idx, j)
}

/// Some position of `idx` holds `j`.
pub open spec fn covers(idx: Seq<int>, j: int) -> bool {
    exists|i: int| 0 <= i < idx.len() && idx[i] == j
}

/// Sorts answers by display name, keeping equal names in their order.
pub fn alphabetical(entries: Vec<NamedRsvp>) -> (r: Vec<NamedRsvp>)
    ensures
        exists|idx: Seq<int>| is_sorted_by_name(entries@, r@, idx),
{
    let ghost s = entries@;
    assert(s.len() == entries.len());
    let mut rest = entries;
    let mut r: Vec<NamedRsvp> = Vec::new();
    let ghost mut idx: Seq<int> = Seq::empty();
    let mut j: usize = 0;
    while rest.len() > 0
        invariant
            j <= s.len(),
            s.len() <= usize::MAX,
            rest@ == s.skip(j as int),
            idx.len() == r.len(),
            r.len() == j,
            forall|i: int| 0 <= i < r.len() ==> 0 <= #[trigger] idx[i] < j && r@[i] == s[idx[i]],
            forall|i: int, k: int| 0 <= i < k < r.len() ==> name_before(s, #[trigger] idx[i], #[trigger] idx[k]),
            forall|j2: int| 0 <= j2 < j ==> #[trigger] covers(idx, j2),
        decreases rest.len(),
    {
        let x = rest.remove(0);
        assert(j < s.len());
        proof {
            assert(s.skip(j as int).remove(0) == s.skip(j + 1));
            assert(x == s[j as int]);
        }
        let xn = chars_of(x.display_name.as_str());
        let mut p: usize = 0;
        while p < r.len() && !lex_less(&xn, &chars_of(r[p].display_name.as_str()))
            invariant
                p <= r.len(),
                xn@ == x.display_name@,
                forall|i: int| 0 <= i < p ==> !lex_lt(x.display_name@, #[trigger] r@[i].display_name@),
            decreases r.len() - p,
        {
            p += 1;
        }
        let ghost old_idx = idx;
        let ghost old_r = r@;
        r.insert(p, x);
        proof {
            idx = idx.insert(p as int, j as int);
            assert(p < old_r.len() ==> lex_lt(s[j as int].display_name@, old_r[p as int].display_name@));
            assert forall|i: int| 0 <= i < r.len() implies 0 <= #[trigger] idx[i] < j + 1 && r@[i] == s[idx[i]] by {
                if i < p {
                    assert(idx[i] == old_idx[i]);
                } else if i > p {
                    assert(idx[i] == old_idx[i - 1]);
                }
            }
            assert forall|i: int, k: int| 0 <= i < k < r.len() implies name_before(s, #[trigger] idx[i], #[trigger] idx[k]) by {
                if i < p && k < p {
                    assert(idx[i] == old_idx[i] && idx[k] == old_idx[k]);
                } else if i < p && k == p {
                    assert(idx[i] == old_idx[i]);
                    assert(!lex_lt(s[j as int].display_name@, old_r[i].display_name@));
                    lemma_lex_total(s[j as int].display_name@, old_r[i].display_name@);
                } else if i < p && k > p {
                    assert(idx[i] == old_idx[i] && idx[k] == old_idx[k - 1]);
                } else if i == p {
                    assert(idx[k] == old_idx[k - 1]);
                    let xname = s[j as int].display_name@;
                    let pname = old_r[p as int].display_name@;
                    let kname = old_r[k - 1].display_name@;
                    if k - 1 > p {
                        assert(name_before(s, old_idx[p as int], old_idx[k - 1]));
                        if lex_lt(pname, kname) {
                            lemma_lex_trans(xname, pname, kname);
                        }
                    }
                } else {
                    assert(idx[i] == old_idx[i - 1] && idx[k] == old_idx[k - 1]);
                }
            }
            assert forall|j2: int| 0 <= j2 < j + 1 implies #[trigger] covers(idx, j2) by {
                if j2 == j {
                    assert(idx[p as int] == j2);
                } else {
                    assert(covers(old_idx, j2));
                    let i0 = choose|i: int| 0 <= i < old_idx.len() && old_idx[i] == j2;
                    if i0 < p {
                        assert(idx[i0] == j2);
                    } else {
                        assert(idx[i0 + 1] == j2);
                    }
                }
            }
        }
        j += 1;
    }
    proof {
        assert(s.skip(j as int).len() == 0);
        assert(is_sorted_by_name(s, r@, idx));
    }
    r
}

/// The list of members shown under an answer of a schedule post: one
/// `> <@member>` line each, or `-` when nobody gave that answer.
pub open spec fn attendee_list_spec(members: Seq<Seq<char>>) -> Seq<char> {
    if members.len() == 0 {
        "-"@
    } else {
        join_spec(members.map_values(|m: Seq<char>| "> <@"@ + m + ">"@), "\n"@)
    }
}

/// The list of members shown under an answer (see `attendee_list_spec`).
pub fn attendee_list(members: &Vec<String>) -> (r: String)
    ensures
        r@ == attendee_list_spec(views(members@)),
{
    if members.len() == 0 {
        return String::from_str("-");
    }
    let mut lines: Vec<String> = Vec::new();
    let mut i: usize = 0;
    while i < members.len()
        invariant
            i <= members.len(),
            views(lines@) == views(members@).take(i as int).map_values(
                |m: Seq<char>| "> <@"@ + m + ">"@,
            ),
        decreases members.len() - i,
    {
        let mut s = String::from_str("> <@");
        s.append(members[i].as_str());
        s.append(">");
        let ghost before = lines@;
        lines.push(s);
        assert(views(members@).take(i + 1) == views(members@).take(i as int).push(members@[i as int]@));
        assert(views(lines@) == views(before).push(s@));
        i += 1;
    }
    assert(views(members@).take(members.len() as int) == views(members@));
    join_strings(&lines, "\n")
}

/// The heading of an answer's list, with how many gave it.
pub fn answer_heading(state: Rsvp, count: usize) -> (r: String)
    ensures
        r@ == match state {
            Rsvp::Yes => "🟩 Attending ("@,
            Rsvp::Maybe => "🟨 Maybe ("@,
            Rsvp::No => "🟥 Declined ("@,
        } + decimal(count as nat) + ")"@,
{
    let mut s = match state {
        Rsvp::Yes => String::from_str("🟩 Attending ("),
        Rsvp::Maybe => String::from_str("🟨 Maybe ("),
        Rsvp::No => String::from_str("🟥 Declined ("),
    };
    crate::text::push_decimal(&mut s, count as u64);
    s.append(")");
    s
}

/// The time line of a schedule post: absolute and relative Discord times.
pub fn time_line(start: i64) -> (r: String)
    ensures
        r@ == "<t:"@ + int_text(start as int) + ":F> - <t:"@ + int_text(start as int) + ":R>"@,
{
    let mut s = String::from_str("<t:");
    push_int(&mut s, start);
    s.append(":F> - <t:");
    push_int(&mut s, start);
    s.append(":R>");
    s
}

/// The list of upcoming missions.
pub open spec fn upcoming_spec(missions: Seq<ScheduledMission>) -> Seq<char>
    decreases missions.len(),
{
    if missions.len() == 0 {
        "**Upcoming Missions**\n\n"@
    } else {
        let m = missions.last();
        upcoming_spec(missions.drop_last()) + "**"@ + m.mission@ + "**\n<t:"@ + int_text(
            m.start as int,
        ) + ":F> - <t:"@ + int_text(m.start as int) + ":R>\n*"@ + m.summary@ + "*\n\n"@
    }
}

/// The list of upcoming missions (see `upcoming_spec`).
pub fn upcoming_text(missions: &Vec<ScheduledMission>) -> (r: String)
    ensures
        r@ == upcoming_spec(missions@),
{
    let mut s = String::from_str("**Upcoming Missions**\n\n");
    let mut i: usize = 0;
    while i < missions.len()
        invariant
            i <= missions.len(),
            s@ == upcoming_spec(missions@.take(i as int)),
        decreases missions.len() - i,
    {
        proof {
            assert(missions@.take(i + 1).drop_last() == missions@.take(i as int));
            assert(missions@.take(i + 1).last() == missions@[i as int]);
        }
        let m = &missions[i];
        s.append("**");
        s.append(m.mission.as_str());
        s.append("**\n<t:");
        push_int(&mut s, m.start);
        s.append(":F> - <t:");
        push_int(&mut s, m.start);
        s.append(":R>\n*");
        s.append(m.summary.as_str());
        s.append("*\n\n");
        i += 1;
    }
    assert(missions@.take(missions.len() as int) == missions@);
    s
}

/// The first upcoming mission not posted yet.
pub fn next_unposted(missions: &Vec<ScheduledMission>) -> (r: Option<usize>)
    ensures
        match r {
            Some(i) => i < missions.len() && missions@[i as int].schedule_message_id.is_none()
                && forall|k: int| 0 <= k < i ==> (#[trigger] missions@[k]).schedule_message_id.is_some(),
            None => forall|k: int|
                0 <= k < missions.len() ==> (#[trigger] missions@[k]).schedule_message_id.is_some(),
        },
{
    let mut i: usize = 0;
    while i < missions.len()
        invariant
            i <= missions.len(),
            forall|k: int| 0 <= k < i ==> (#[trigger] missions@[k]).schedule_message_id.is_some(),
        decreases missions.len() - i,
    {
        if missions[i].schedule_message_id.is_none() {
            return Some(i);
        }
        i += 1;
    }
    None
}

/// A mission of the mission list.
pub struct MissionEntry {
    pub id: String,
    pub play_count: Option<i64>,
}

/// Whether a mission is offered when nothing was typed: never played, and
/// not a training mission (ids beginning `tt30` or `tra30`, ignoring case).
pub open spec fn offered_unplayed(m: MissionEntry) -> bool {
    (match m.play_count {
        Some(c) => c,
        None => 0,
    }) == 0 && !"tt30"@.is_prefix_of(lowercase(m.id@)) && !"tra30"@.is_prefix_of(lowercase(m.id@))
}

/// The missions offered for scheduling: with nothing typed, the unplayed
/// non-training missions, otherwise every match; the first `MAX_CHOICES`.
pub fn missions_offered(missions: Vec<MissionEntry>, typed_nothing: bool) -> (r: Vec<MissionEntry>)
    ensures
        r@ == first_choices(
            if typed_nothing {
                kept(missions@, missions@.map_values(|m: MissionEntry| offered_unplayed(m)))
            } else {
                missions@
            },
        ),
{
    if !typed_nothing {
        let mut m = missions;
        truncate_choices(&mut m);
        return m;
    }
    let ghost flags = missions@.map_values(|m: MissionEntry| offered_unplayed(m));
    let tt = chars_of("tt30");
    let tra = chars_of("tra30");
    let mut keep: Vec<bool> = Vec::new();
    let mut i: usize = 0;
    while i < missions.len()
        invariant
            i <= missions.len(),
            tt@ == "tt30"@,
            tra@ == "tra30"@,
            keep@ == flags.take(i as int),
            flags == missions@.map_values(|m: MissionEntry| offered_unplayed(m)),
        decreases missions.len() - i,
    {
        let count = match missions[i].play_count {
            Some(c) => c,
            None => 0,
        };
        let id = chars_of(to_lowercase(missions[i].id.as_str()).as_str());
        keep.push(count == 0 && !starts_with_chars(&id, &tt) && !starts_with_chars(&id, &tra));
        assert(flags.take(i + 1) == flags.take(i as int).push(flags[i as int]));
        i += 1;
    }
    assert(flags.take(missions.len() as int) == flags);
    let mut r = select(missions, &keep);
    truncate_choices(&mut r);
    r
}

/// What the button pressed on a schedule post asks for.
#[derive(Clone, Copy, Debug, PartialEq, Eq, Structural)]
pub enum RsvpButton {
    Yes,
    Maybe,
    No,
    Unknown,
}

/// The answer a schedule post button gives.
pub fn rsvp_button_kind(custom_id: &str) -> (r: RsvpButton)
    ensures
        r == (if custom_id@ == "rsvp_yes"@ {
            RsvpButton::Yes
        } else if custom_id@ == "rsvp_maybe"@ {
            RsvpButton::Maybe
        } else if custom_id@ == "rsvp_no"@ {
            RsvpButton::No
        } else {
            RsvpButton::Unknown
        }),
{
    let c = chars_of(custom_id);
    let y = chars_of("rsvp_yes");
    let m = chars_of("rsvp_maybe");
    let n = chars_of("rsvp_no");
    if c.len() == y.len() && starts_with_chars(&c, &y) {
        assert(c@ == c@.subrange(0, y@.len() as int));
        RsvpButton::Yes
    } else if c.len() == m.len() && starts_with_chars(&c, &m) {
        assert(c@ == c@.subrange(0, m@.len() as int));
        proof {
            if c@ == y@ {
                assert(y@.is_prefix_of(c@));
            }
        }
        RsvpButton::Maybe
    } else if c.len() == n.len() && starts_with_chars(&c, &n) {
        assert(c@ == c@.subrange(0, n@.len() as int));
        proof {
            if c@ == y@ {
                assert(y@.is_prefix_of(c@));
            }
            if c@ == m@ {
                assert(m@.is_prefix_of(c@));
            }
        }
        RsvpButton::No
    } else {
        proof {
            if c@ == y@ {
                assert(y@.is_prefix_of(c@));
            }
            if c@ == m@ {
                assert(m@.is_prefix_of(c@));
            }
            if c@ == n@ {
                assert(n@.is_prefix_of(c@));
            }
        }
        RsvpButton::Unknown
    }
}

/// The ordinal announced when a member's attendance count reaches a
/// milestone (the count includes the mission about to start).
pub open spec fn milestone_spec(count: int) -> Option<Seq<char>> {
    if count == 1 {
        Some("1st"@)
    } else if count == 2 {
        Some("2nd"@)
    } else if count == 16 {
        Some("16th"@)
    } else if count == 50 {
        Some("50th"@)
    } else if count == 100 {
        Some("100th"@)
    } else if count == 200 {
        Some("200th"@)
    } else if count == 300 {
        Some("300th"@)
    } else {
        None
    }
}

/// The announcement for a member who has attended `previous` missions
/// before the one about to start, when it makes a milestone.
pub fn milestone_message(member: &str, previous: i64) -> (r: Option<String>)
    requires
        previous < i64::MAX,
    ensures
        match milestone_spec(previous + 1) {
            Some(ord) => r matches Some(s) && s@ == "<@"@ + member@ + "> will be attending their "@
                + ord + " mission"@,
            None => r.is_none(),
        },
{
    let count = previous + 1;
    let ord = if count == 1 {
        "1st"
    } else if count == 2 {
        "2nd"
    } else if count == 16 {
        "16th"
    } else if count == 50 {
        "50th"
    } else if count == 100 {
        "100th"
    } else if count == 200 {
        "200th"
    } else if count == 300 {
        "300th"
    } else {
        return None;
    };
    let mut s = String::from_str("<@");
    s.append(member);
    s.append("> will be attending their ");
    s.append(ord);
    s.append(" mission");
    Some(s)
}

/// Whether a mission starting in `minutes` minutes is closing its RSVPs:
/// within one minute either way.
pub fn closing_rsvps(minutes: i64) -> (b: bool)
    ensures
        b == (-1 <= minutes <= 1),
{
    -1 <= minutes && minutes <= 1
}


/// The notice for someone without roles who tries to answer: point them to
/// the lobby and the onboarding channel.
pub fn members_only_notice(lobby: u64, onboarding: u64) -> (r: String)
    ensures
        r@ == "You must be a member to RSVP. Head to <#"@ + decimal(lobby as nat)
            + "> and ask any questions you may have, or checkout <#"@ + decimal(onboarding as nat)
            + "> to apply and get started!"@,
{
    let mut r = String::new();
    push_lit(&mut r, "You must be a member to RSVP. Head to <#");
    crate::text::push_decimal(&mut r, lobby);
    push_lit(&mut r, "> and ask any questions you may have, or checkout <#");
    crate::text::push_decimal(&mut r, onboarding);
    push_lit(&mut r, "> to apply and get started!");
    r
}

/// The reasons offered with a maybe or a no, each shown text with the value
/// recorded.
pub open spec fn rsvp_reasons_spec(state: Rsvp) -> Seq<(Seq<char>, Seq<char>)> {
    if state == Rsvp::No {
        seq![
            ("I won't be able to make it"@, "not_sure"@),
            ("I'm not interested in this mission"@, "not_interested"@),
            ("I'm burnt out"@, "burnt_out"@),
            ("Other"@, "other"@),
        ]
    } else {
        seq![
            ("I might not be able to make it"@, "not_sure"@),
            ("I'm not interested in this mission"@, "not_interested"@),
            ("I'm burnt out and may not want to attend"@, "burnt_out"@),
            ("Other"@, "other"@),
        ]
    }
}

fn pair(a: &str, b: &str) -> (r: (String, String))
    ensures
        r.0@ == a@,
        r.1@ == b@,
{
    (string_of(&chars_of(a)), string_of(&chars_of(b)))
}

/// The reasons offered with a maybe or a no (see `rsvp_reasons_spec`).
pub fn rsvp_reasons(state: Rsvp) -> (r: Vec<(String, String)>)
    ensures
        r@.map_values(|p: (String, String)| (p.0@, p.1@)) == rsvp_reasons_spec(state),
{
    let r = if state == Rsvp::No {
        vec![
            pair("I won't be able to make it", "not_sure"),
            pair("I'm not interested in this mission", "not_interested"),
            pair("I'm burnt out", "burnt_out"),
            pair("Other", "other"),
        ]
    } else {
        vec![
            pair("I might not be able to make it", "not_sure"),
            pair("I'm not interested in this mission", "not_interested"),
            pair("I'm burnt out and may not want to attend", "burnt_out"),
            pair("Other", "other"),
        ]
    };
    assert(r@.map_values(|p: (String, String)| (p.0@, p.1@)) == rsvp_reasons_spec(state));
    r
}

/// Whether a time is free to schedule: the check answered, and said nothing
/// is scheduled there (`None` for a failed check; the answer holds no
/// mission, an unknown one, or one that is not scheduled).
pub open spec fn slot_free_spec(check: Option<Option<Option<bool>>>) -> bool {
    match check {
        Some(None) => true,
        Some(Some(None)) => true,
        Some(Some(Some(false))) => true,
        _ => false,
    }
}

/// Whether a time is free to schedule (see `slot_free_spec`).
pub fn slot_free(check: Option<Option<Option<bool>>>) -> (r: bool)
    ensures
        r == slot_free_spec(check),
{
    match check {
        Some(None) => true,
        Some(Some(None)) => true,
        Some(Some(Some(false))) => true,
        _ => false,
    }
}

/// `<t:TIME:F>`, a Discord time.
pub open spec fn full_time(t: i64) -> Seq<char> {
    "<t:"@ + int_text(t as int) + ":F>"@
}

fn push_full_time(r: &mut String, t: i64)
    ensures
        final(r)@ == old(r)@ + full_time(t),
{
    push_lit(r, "<t:");
    push_int(r, t);
    push_lit(r, ":F>");
}

/// The reply when the time is taken or the check failed.
pub fn slot_taken_reply(start: i64) -> (r: String)
    ensures
        r@ == "A mission is already scheduled at "@ + full_time(start) + ", or the check failed."@,
{
    let mut r = String::new();
    push_lit(&mut r, "A mission is already scheduled at ");
    push_full_time(&mut r, start);
    push_lit(&mut r, ", or the check failed.");
    r
}

/// The prompt (`done` false) or reply (`done` true) about scheduling a mission.
pub fn schedule_text(done: bool, mission: &str, start: i64) -> (r: String)
    ensures
        !done ==> r@ == "Schedule `"@ + mission@ + "` for "@ + full_time(start) + "?"@,
        done ==> r@ == "Scheduled `"@ + mission@ + "` for "@ + full_time(start),
{
    let mut r = String::new();
    if done {
        push_lit(&mut r, "Scheduled `");
    } else {
        push_lit(&mut r, "Schedule `");
    }
    push_lit(&mut r, mission);
    push_lit(&mut r, "` for ");
    push_full_time(&mut r, start);
    if !done {
        push_lit(&mut r, "?");
    }
    r
}

/// The reply once a subcontract was proposed.
pub fn subcon_reply(start: i64) -> (r: String)
    ensures
        r@ == "A subcon is proposed for "@ + full_time(start),
{
    let mut r = String::new();
    push_lit(&mut r, "A subcon is proposed for ");
    push_full_time(&mut r, start);
    r
}

/// How a scheduled mission is named in prompts: the mission and its time
/// as shown to staff.
pub fn mission_label(mission: &str, when: &str) -> (r: String)
    ensures
        r@ == mission@ + " - "@ + when@,
{
    let mut r = String::new();
    push_lit(&mut r, mission);
    push_lit(&mut r, " - ");
    push_lit(&mut r, when);
    r
}

/// What is being asked or reported about a scheduled mission.
#[derive(Clone, Copy, Debug, PartialEq, Eq, Structural)]
pub enum LabelText {
    ConfirmRemove,
    Removed,
    RemoveFailed,
    ConfirmPost,
}

/// The prompt or reply about a scheduled mission, named by its label.
pub fn label_text(kind: LabelText, label: &str) -> (r: String)
    ensures
        r@ == match kind {
            LabelText::ConfirmRemove => "Are you sure you want to remove `"@,
            LabelText::Removed => "Removed `"@,
            LabelText::RemoveFailed => "Failed to remove `"@,
            LabelText::ConfirmPost => "Are you sure you want to post `"@,
        } + label@ + match kind {
            LabelText::ConfirmRemove | LabelText::ConfirmPost => "`?"@,
            _ => "`"@,
        },
{
    let mut r = String::new();
    match kind {
        LabelText::ConfirmRemove => push_lit(&mut r, "Are you sure you want to remove `"),
        LabelText::Removed => push_lit(&mut r, "Removed `"),
        LabelText::RemoveFailed => push_lit(&mut r, "Failed to remove `"),
        LabelText::ConfirmPost => push_lit(&mut r, "Are you sure you want to post `"),
    }
    push_lit(&mut r, label);
    match kind {
        LabelText::ConfirmRemove | LabelText::ConfirmPost => push_lit(&mut r, "`?"),
        _ => push_lit(&mut r, "`"),
    }
    r
}

/// The position of the scheduled mission with the id `id`, if any.
pub fn find_scheduled(missions: &Vec<ScheduledMission>, id: &str) -> (r: Option<usize>)
    ensures
        r matches Some(i) ==> i < missions@.len() && missions@[i as int].id@ == id@ && forall|k: int|
            0 <= k < i ==> (#[trigger] missions@[k]).id@ != id@,
        r is None ==> forall|k: int| 0 <= k < missions@.len() ==> (#[trigger] missions@[k]).id@ != id@,
{
    let mut i: usize = 0;
    while i < missions.len()
        invariant
            i <= missions.len(),
            forall|k: int| 0 <= k < i ==> (#[trigger] missions@[k]).id@ != id@,
        decreases missions.len() - i,
    {
        if crate::handler::same_text(missions[i].id.as_str(), id) {
            return Some(i);
        }
        i += 1;
    }
    None
}

/// The hour a mission is scheduled at: the hour given, else 16 on weekends
/// and 22 on weekdays; `None` when the given hour is no hour of the day.
pub fn schedule_hour(hour: Option<i64>, weekend: bool) -> (r: Option<u8>)
    ensures
        hour is None ==> r == Some(if weekend {
            16u8
        } else {
            22u8
        }),
        hour matches Some(h) ==> (r is Some <==> 0 <= h < 24),
        hour matches Some(h) ==> (r matches Some(x) ==> x == h),
{
    match hour {
        None => if weekend {
            Some(16)
        } else {
            Some(22)
        },
        Some(h) => if 0 <= h && h < 24 {
            Some(h as u8)
        } else {
            None
        },
    }
}

/// The year a mission is scheduled in: this year, or the next when the
/// date this year has already passed; `None` when the next year is past
/// the largest year.
pub fn start_year(year: i32, passed: bool) -> (r: Option<i32>)
    ensures
        !passed ==> r == Some(year),
        passed ==> (r is Some <==> year < i32::MAX),
        passed ==> (r matches Some(y) ==> y == year + 1),
{
    if !passed {
        Some(year)
    } else if year < i32::MAX {
        Some(year + 1)
    } else {
        None
    }
}

/// What to do with a press of a schedule post's button.
#[derive(Clone, Copy, Debug, PartialEq, Eq, Structural)]
pub enum RsvpPlan {
    /// Tell the presser that only members may answer.
    MembersOnly,
    /// Record this answer.
    Record(Rsvp),
    /// Ask for a reason, then record this answer with it.
    AskReason(Rsvp),
    /// Not an answer button: do nothing.
    Ignore,
}

/// What to do with a press of a schedule post's button: nothing is
/// recorded for someone without roles; a yes is recorded at once, a maybe
/// or a no after a reason is given.
pub fn rsvp_plan(has_roles: bool, button: RsvpButton) -> (r: RsvpPlan)
    ensures
        !has_roles ==> r == RsvpPlan::MembersOnly,
        has_roles ==> r == match button {
            RsvpButton::Yes => RsvpPlan::Record(Rsvp::Yes),
            RsvpButton::Maybe => RsvpPlan::AskReason(Rsvp::Maybe),
            RsvpButton::No => RsvpPlan::AskReason(Rsvp::No),
            RsvpButton::Unknown => RsvpPlan::Ignore,
        },
{
    if !has_roles {
        return RsvpPlan::MembersOnly;
    }
    match button {
        RsvpButton::Yes => RsvpPlan::Record(Rsvp::Yes),
        RsvpButton::Maybe => RsvpPlan::AskReason(Rsvp::Maybe),
        RsvpButton::No => RsvpPlan::AskReason(Rsvp::No),
        RsvpButton::Unknown => RsvpPlan::Ignore,
    }
}

/// Where removing a scheduled mission stands.
#[derive(Clone, Copy, Debug, PartialEq, Eq, Structural)]
pub enum RemoveStage {
    /// Staff are choosing the mission.
    Choosing,
    /// Staff are asked to confirm the removal.
    Confirming,
    /// The mission is being taken off the schedule.
    Unscheduling,
    /// Nothing more to do.
    Done,
}

/// What happened at the current stage of a removal.
#[derive(Clone, Copy, Debug, PartialEq, Eq, Structural)]
pub enum RemoveEvent {
    /// A mission was chosen, or the choice was abandoned.
    Chosen(bool),
    /// The answer to the confirmation.
    Confirmed(crate::interaction::Confirmation),
    /// Taking it off the schedule succeeded or failed.
    Unscheduled(bool),
}

/// What the bot does next in a removal.
#[derive(Clone, Copy, Debug, PartialEq, Eq, Structural)]
pub enum RemoveAction {
    /// Reply `Cancelled`: no mission was chosen.
    Cancelled,
    /// Show the chosen mission and ask to confirm its removal.
    AskConfirm,
    /// Take the mission off the schedule.
    Unschedule,
    /// Delete the mission's post and report it removed.
    DeletePost,
    /// Report that the removal failed.
    ReportFailed,
    /// Reply that the removal was cancelled.
    RemovalCancelled,
    /// Stop without a reply.
    Finish,
}

/// One step of removing a scheduled mission: a mission is only taken off
/// the schedule after staff confirmed, and its post only deleted once that
/// succeeded.
pub open spec fn remove_step_spec(stage: RemoveStage, event: RemoveEvent) -> (RemoveStage, RemoveAction) {
    match (stage, event) {
        (RemoveStage::Choosing, RemoveEvent::Chosen(chosen)) => if chosen {
            (RemoveStage::Confirming, RemoveAction::AskConfirm)
        } else {
            (RemoveStage::Done, RemoveAction::Cancelled)
        },
        (RemoveStage::Confirming, RemoveEvent::Confirmed(c)) => match c {
            crate::interaction::Confirmation::Yes => (RemoveStage::Unscheduling, RemoveAction::Unschedule),
            crate::interaction::Confirmation::No => (RemoveStage::Done, RemoveAction::RemovalCancelled),
            crate::interaction::Confirmation::Timeout => (RemoveStage::Done, RemoveAction::Finish),
        },
        (RemoveStage::Unscheduling, RemoveEvent::Unscheduled(ok)) => if ok {
            (RemoveStage::Done, RemoveAction::DeletePost)
        } else {
            (RemoveStage::Done, RemoveAction::ReportFailed)
        },
        _ => (RemoveStage::Done, RemoveAction::Finish),
    }
}

/// One step of removing a scheduled mission (see `remove_step_spec`).
pub fn remove_step(stage: RemoveStage, event: RemoveEvent) -> (r: (RemoveStage, RemoveAction))
    ensures
        r == remove_step_spec(stage, event),
{
    match (stage, event) {
        (RemoveStage::Choosing, RemoveEvent::Chosen(chosen)) => if chosen {
            (RemoveStage::Confirming, RemoveAction::AskConfirm)
        } else {
            (RemoveStage::Done, RemoveAction::Cancelled)
        },
        (RemoveStage::Confirming, RemoveEvent::Confirmed(c)) => match c {
            crate::interaction::Confirmation::Yes => (RemoveStage::Unscheduling, RemoveAction::Unschedule),
            crate::interaction::Confirmation::No => (RemoveStage::Done, RemoveAction::RemovalCancelled),
            crate::interaction::Confirmation::Timeout => (RemoveStage::Done, RemoveAction::Finish),
        },
        (RemoveStage::Unscheduling, RemoveEvent::Unscheduled(ok)) => if ok {
            (RemoveStage::Done, RemoveAction::DeletePost)
        } else {
            (RemoveStage::Done, RemoveAction::ReportFailed)
        },
        _ => (RemoveStage::Done, RemoveAction::Finish),
    }
}

/// A mission is taken off the schedule only right after staff confirmed
/// its removal, and its post is deleted only right after that succeeded.
pub proof fn law_unschedule_only_after_yes(stage: RemoveStage, event: RemoveEvent)
    ensures
        ({
            let (next, action) = remove_step_spec(stage, event);
            &&& action == RemoveAction::Unschedule <==> (stage == RemoveStage::Confirming && event
                == RemoveEvent::Confirmed(crate::interaction::Confirmation::Yes))
            &&& action == RemoveAction::DeletePost <==> (stage == RemoveStage::Unscheduling && event
                == RemoveEvent::Unscheduled(true))
            &&& next == RemoveStage::Unscheduling ==> action == RemoveAction::Unschedule
        }),
{
}

/// Where posting a scheduled mission stands.
#[derive(Clone, Copy, Debug, PartialEq, Eq, Structural)]
pub enum PostStage {
    /// The mission's answers are being fetched.
    FetchingRsvps,
    /// The schedule post is being sent.
    Posting,
    /// The post's thread is being created.
    Threading,
    /// The briefing is being posted in the thread.
    Briefing,
    /// The post is being recorded with the mission.
    Recording,
    /// Nothing more to do.
    Done,
}

/// What happened at the current stage of posting a mission.
#[derive(Clone, Copy, Debug, PartialEq, Eq, Structural)]
pub enum PostEvent {
    /// Fetching the answers succeeded or failed.
    RsvpsFetched(bool),
    /// Sending the post succeeded or failed.
    Posted(bool),
    /// Creating the thread succeeded or failed.
    ThreadCreated(bool),
    /// The briefing went out.
    BriefingPosted,
    /// Recording the post succeeded or failed.
    Recorded(bool),
}

/// What the bot does next while posting a mission.
#[derive(Clone, Copy, Debug, PartialEq, Eq, Structural)]
pub enum PostAction {
    /// Send the schedule post with the answers.
    SendPost,
    /// Create the post's thread.
    CreateThread,
    /// Post the old-style briefing, cleaned, in one message.
    PostOldBriefing,
    /// Post the briefing's sections, one message each.
    PostSections,
    /// Record the post with the mission.
    Record,
    /// Report `Failed to fetch rsvps` and stop without a post.
    RsvpsFailed,
    /// Report `Failed to post mission` and stop without a post.
    PostFailed,
    /// Report `Failed to create thread` and stop without a post.
    ThreadFailed,
    /// Report the mission posted, and give the post.
    ReportPosted,
    /// Report the post failed to be recorded, and give the post.
    ReportRecordFailed,
}

/// One step of posting a scheduled mission: `thread` asks for a thread
/// with the briefing, `old_briefing` says the mission has an old-style one.
/// The post is recorded only once it was sent, and, where a thread was
/// asked for, once the thread exists and the briefing went out.
pub open spec fn post_step_spec(stage: PostStage, thread: bool, old_briefing: bool, event: PostEvent) -> (
    PostStage,
    PostAction,
) {
    match (stage, event) {
        (PostStage::FetchingRsvps, PostEvent::RsvpsFetched(ok)) => if ok {
            (PostStage::Posting, PostAction::SendPost)
        } else {
            (PostStage::Done, PostAction::RsvpsFailed)
        },
        (PostStage::Posting, PostEvent::Posted(ok)) => if !ok {
            (PostStage::Done, PostAction::PostFailed)
        } else if thread {
            (PostStage::Threading, PostAction::CreateThread)
        } else {
            (PostStage::Recording, PostAction::Record)
        },
        (PostStage::Threading, PostEvent::ThreadCreated(ok)) => if !ok {
            (PostStage::Done, PostAction::ThreadFailed)
        } else if old_briefing {
            (PostStage::Briefing, PostAction::PostOldBriefing)
        } else {
            (PostStage::Briefing, PostAction::PostSections)
        },
        (PostStage::Briefing, PostEvent::BriefingPosted) => (PostStage::Recording, PostAction::Record),
        (PostStage::Recording, PostEvent::Recorded(ok)) => if ok {
            (PostStage::Done, PostAction::ReportPosted)
        } else {
            (PostStage::Done, PostAction::ReportRecordFailed)
        },
        _ => (PostStage::Done, PostAction::PostFailed),
    }
}

/// One step of posting a scheduled mission (see `post_step_spec`).
pub fn post_step(stage: PostStage, thread: bool, old_briefing: bool, event: PostEvent) -> (r: (
    PostStage,
    PostAction,
))
    ensures
        r == post_step_spec(stage, thread, old_briefing, event),
{
    match (stage, event) {
        (PostStage::FetchingRsvps, PostEvent::RsvpsFetched(ok)) => if ok {
            (PostStage::Posting, PostAction::SendPost)
        } else {
            (PostStage::Done, PostAction::RsvpsFailed)
        },
        (PostStage::Posting, PostEvent::Posted(ok)) => if !ok {
            (PostStage::Done, PostAction::PostFailed)
        } else if thread {
            (PostStage::Threading, PostAction::CreateThread)
        } else {
            (PostStage::Recording, PostAction::Record)
        },
        (PostStage::Threading, PostEvent::ThreadCreated(ok)) => if !ok {
            (PostStage::Done, PostAction::ThreadFailed)
        } else if old_briefing {
            (PostStage::Briefing, PostAction::PostOldBriefing)
        } else {
            (PostStage::Briefing, PostAction::PostSections)
        },
        (PostStage::Briefing, PostEvent::BriefingPosted) => (PostStage::Recording, PostAction::Record),
        (PostStage::Recording, PostEvent::Recorded(ok)) => if ok {
            (PostStage::Done, PostAction::ReportPosted)
        } else {
            (PostStage::Done, PostAction::ReportRecordFailed)
        },
        _ => (PostStage::Done, PostAction::PostFailed),
    }
}

/// A post is recorded only right after it was sent without a thread, or
/// right after its thread's briefing went out; a thread is only created
/// when one was asked for.
pub proof fn law_record_only_when_posted(stage: PostStage, thread: bool, old_briefing: bool, event: PostEvent)
    ensures
        ({
            let (next, action) = post_step_spec(stage, thread, old_briefing, event);
            &&& action == PostAction::Record <==> (stage == PostStage::Posting && event
                == PostEvent::Posted(true) && !thread) || (stage == PostStage::Briefing && event
                == PostEvent::BriefingPosted)
            &&& action == PostAction::CreateThread ==> thread
            &&& action == PostAction::PostOldBriefing ==> old_briefing
            &&& action == PostAction::PostSections ==> !old_briefing
        }),
{
}

/// Posting a mission without a thread, where every call succeeds: the
/// answers are fetched, the post is sent, then recorded, and the mission is
/// reported posted.
pub proof fn law_post_without_thread_succeeds(old_briefing: bool)
    ensures
        ({
            let (s1, a1) = post_step_spec(PostStage::FetchingRsvps, false, old_briefing, PostEvent::RsvpsFetched(true));
            let (s2, a2) = post_step_spec(s1, false, old_briefing, PostEvent::Posted(true));
            let (s3, a3) = post_step_spec(s2, false, old_briefing, PostEvent::Recorded(true));
            &&& a1 == PostAction::SendPost
            &&& a2 == PostAction::Record
            &&& a3 == PostAction::ReportPosted
            &&& s3 == PostStage::Done
        }),
{
}

/// Posting a mission with a thread, where every call succeeds: the post is
/// sent, its thread created, the briefing posted there (the old-style one
/// when the mission has it, else the sections), the post recorded, and the
/// mission reported posted.
pub proof fn law_post_with_thread_succeeds(old_briefing: bool)
    ensures
        ({
            let (s1, a1) = post_step_spec(PostStage::FetchingRsvps, true, old_briefing, PostEvent::RsvpsFetched(true));
            let (s2, a2) = post_step_spec(s1, true, old_briefing, PostEvent::Posted(true));
            let (s3, a3) = post_step_spec(s2, true, old_briefing, PostEvent::ThreadCreated(true));
            let (s4, a4) = post_step_spec(s3, true, old_briefing, PostEvent::BriefingPosted);
            let (s5, a5) = post_step_spec(s4, true, old_briefing, PostEvent::Recorded(true));
            &&& a1 == PostAction::SendPost
            &&& a2 == PostAction::CreateThread
            &&& a3 == (if old_briefing { PostAction::PostOldBriefing } else { PostAction::PostSections })
            &&& a4 == PostAction::Record
            &&& a5 == PostAction::ReportPosted
            &&& s5 == PostStage::Done
        }),
{
}

/// Each failure is reported exactly when its call failed: the fetch of the
/// answers, the post, the thread, or the record of the post; a failure
/// before the post leaves no post behind.
pub proof fn law_post_failures(stage: PostStage, thread: bool, old_briefing: bool, event: PostEvent)
    ensures
        ({
            let (next, action) = post_step_spec(stage, thread, old_briefing, event);
            &&& (stage == PostStage::FetchingRsvps ==> (action == PostAction::RsvpsFailed <==> event
                == PostEvent::RsvpsFetched(false)))
            &&& (action == PostAction::RsvpsFailed ==> stage == PostStage::FetchingRsvps)
            &&& (stage == PostStage::FetchingRsvps && event == PostEvent::RsvpsFetched(true) ==> (next
                == PostStage::Posting && action == PostAction::SendPost))
            &&& (stage == PostStage::Posting ==> (action == PostAction::PostFailed <==> event
                != PostEvent::Posted(true)))
            &&& (stage == PostStage::Threading ==> (action == PostAction::ThreadFailed <==> event
                == PostEvent::ThreadCreated(false)))
            &&& (action == PostAction::ThreadFailed ==> stage == PostStage::Threading)
            &&& (stage == PostStage::Recording && event == PostEvent::Recorded(false) ==> action
                == PostAction::ReportRecordFailed)
            &&& (action == PostAction::ReportPosted <==> (stage == PostStage::Recording && event
                == PostEvent::Recorded(true)))
            &&& (action == PostAction::SendPost ==> stage == PostStage::FetchingRsvps)
        }),
{
}

/// Removing a mission where staff choose it and confirm, and taking it off
/// the schedule succeeds: it is shown for confirmation, taken off, and its
/// post deleted. Declining is answered, silence ends quietly, a failure is
/// reported.
pub proof fn law_remove_flow()
    ensures
        ({
            let (s1, a1) = remove_step_spec(RemoveStage::Choosing, RemoveEvent::Chosen(true));
            let (s2, a2) = remove_step_spec(s1, RemoveEvent::Confirmed(crate::interaction::Confirmation::Yes));
            let (s3, a3) = remove_step_spec(s2, RemoveEvent::Unscheduled(true));
            &&& a1 == RemoveAction::AskConfirm
            &&& a2 == RemoveAction::Unschedule
            &&& a3 == RemoveAction::DeletePost
            &&& s3 == RemoveStage::Done
            &&& remove_step_spec(RemoveStage::Choosing, RemoveEvent::Chosen(false)).1 == RemoveAction::Cancelled
            &&& remove_step_spec(s1, RemoveEvent::Confirmed(crate::interaction::Confirmation::No)).1
                == RemoveAction::RemovalCancelled
            &&& remove_step_spec(s1, RemoveEvent::Confirmed(crate::interaction::Confirmation::Timeout)).1
                == RemoveAction::Finish
            &&& remove_step_spec(s2, RemoveEvent::Unscheduled(false)).1 == RemoveAction::ReportFailed
        }),
{
}

/// A time is free to schedule only when the check answered and did not
/// find a scheduled mission there: a failed check, or a mission already
/// scheduled, keep the time taken.
pub proof fn law_slot_free(check: Option<Option<Option<bool>>>)
    ensures
        slot_free_spec(check) <==> (check is Some && check->0 != Some(Some(true))),
        !slot_free_spec(None),
        !slot_free_spec(Some(Some(Some(true)))),
        slot_free_spec(Some(None)),
{
}

/// With nothing typed, a mission is offered for scheduling only when it was
/// never played and is no training mission (`tt30` or `tra30` in any case);
/// a never-played mission whose lower-cased id starts with neither is offered.
pub proof fn law_offered_unplayed(m: MissionEntry)
    ensures
        (m.play_count matches Some(c) && c != 0) ==> !offered_unplayed(m),
        "tt30"@.is_prefix_of(lowercase(m.id@)) || "tra30"@.is_prefix_of(lowercase(m.id@)) ==> !offered_unplayed(m),
        (m.play_count is None || m.play_count == Some(0i64)) && !"tt30"@.is_prefix_of(lowercase(m.id@))
            && !"tra30"@.is_prefix_of(lowercase(m.id@)) ==> offered_unplayed(m),
{
}

/// Every answer is listed once, under the answer it gave: the three lists
/// together hold as many entries as there are answers.
pub proof fn law_rsvps_partitioned(rsvps: Seq<MissionRsvp>)
    ensures
        answered(rsvps, Rsvp::Yes).len() + answered(rsvps, Rsvp::Maybe).len() + answered(
            rsvps,
            Rsvp::No,
        ).len() == rsvps.len(),
    decreases rsvps.len(),
{
    if rsvps.len() > 0 {
        law_rsvps_partitioned(rsvps.drop_last());
    }
}

} // verus!
