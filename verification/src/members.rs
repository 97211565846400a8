//! Finding guild members from the names or ids people write in messages.
use vstd::prelude::*;

use crate::text::{chars_of, lowercase, parse_u64, parse_u64_spec, string_of, to_lowercase, views};

verus! {

/// A member of the guild as the lookup sees them.
#[derive(Clone, Debug)]
pub struct GuildMember {
    pub display_name: String,
    pub id: u64,
}

/// The one member found by a fixed id rather than by display name.
pub const SPECIAL_ID: u64 = 358_146_229_626_077_187;

/// The name that resolves to `SPECIAL_ID`.
pub open spec fn special_name() -> Seq<char> {
    "Nathanial Greene"@
}

/// Whether `c` has Unicode's White_Space property, which std's
/// `char::is_whitespace` tests: tab to carriage return, space, next line,
/// no-break space, ogham space mark, the spaces U+2000 to U+200A, the line
/// and paragraph separators, the narrow no-break space, the medium
/// mathematical space and the ideographic space.
pub open spec fn white_space(c: char) -> bool {
    let n = c as u32;
    (0x9 <= n <= 0xd) || n == 0x20 || n == 0x85 || n == 0xa0 || n == 0x1680 || (0x2000 <= n
        <= 0x200a) || n == 0x2028 || n == 0x2029 || n == 0x202f || n == 0x205f || n == 0x3000
}

/// Whether `c` is white space (see `white_space`).
pub fn is_white(c: char) -> (r: bool)
    ensures
        r == white_space(c),
{
    let n = c as u32;
    (0x9 <= n && n <= 0xd) || n == 0x20 || n == 0x85 || n == 0xa0 || n == 0x1680 || (0x2000 <= n
        && n <= 0x200a) || n == 0x2028 || n == 0x2029 || n == 0x202f || n == 0x205f || n == 0x3000
}

/// `s` without its leading white space.
pub open spec fn trim_start_spec(s: Seq<char>) -> Seq<char>
    decreases s.len(),
{
    if s.len() > 0 && white_space(s[0]) {
        trim_start_spec(s.drop_first())
    } else {
        s
    }
}

/// `s` without its trailing white space.
pub open spec fn trim_end_spec(s: Seq<char>) -> Seq<char>
    decreases s.len(),
{
    if s.len() > 0 && white_space(s.last()) {
        trim_end_spec(s.drop_last())
    } else {
        s
    }
}

/// `s` without leading and trailing white space, as std's `str::trim` gives it.
pub open spec fn trim_spec(s: Seq<char>) -> Seq<char> {
    trim_end_spec(trim_start_spec(s))
}

proof fn lemma_trim_start_skip(s: Seq<char>, i: int)
    requires
        0 <= i < s.len(),
        white_space(s[i]),
    ensures
        trim_start_spec(s.subrange(i, s.len() as int)) == trim_start_spec(
            s.subrange(i + 1, s.len() as int),
        ),
{
    assert(s.subrange(i, s.len() as int).drop_first() == s.subrange(i + 1, s.len() as int));
}

/// `s` without leading and trailing white space.
pub fn trim(s: &Vec<char>) -> (r: Vec<char>)
    ensures
        r@ == trim_spec(s@),
{
    let mut a: usize = 0;
    assert(s@.subrange(0, s.len() as int) == s@);
    while a < s.len() && is_white(s[a])
        invariant
            a <= s.len(),
            trim_start_spec(s@) == trim_start_spec(s@.subrange(a as int, s.len() as int)),
        decreases s.len() - a,
    {
        proof {
            lemma_trim_start_skip(s@, a as int);
        }
        a += 1;
    }
    let ghost t = s@.subrange(a as int, s.len() as int);
    assert(trim_start_spec(t) == t);
    let mut e: usize = s.len();
    while e > a && is_white(s[e - 1])
        invariant
            a <= e <= s.len(),
            t == s@.subrange(a as int, s.len() as int),
            trim_end_spec(t) == trim_end_spec(s@.subrange(a as int, e as int)),
        decreases e,
    {
        proof {
            let u = s@.subrange(a as int, e as int);
            assert(u.drop_last() == s@.subrange(a as int, e - 1));
            assert(u.last() == s@[e - 1]);
        }
        e -= 1;
    }
    let mut r: Vec<char> = Vec::new();
    let mut k: usize = a;
    while k < e
        invariant
            a <= k <= e,
            e <= s.len(),
            r@ == s@.subrange(a as int, k as int),
        decreases e - k,
    {
        r.push(s[k]);
        assert(s@.subrange(a as int, k + 1) == s@.subrange(a as int, k as int).push(s@[k as int]));
        k += 1;
    }
    r
}

/// The display names and ids of a list of found members.
pub open spec fn found_view(v: Seq<(String, u64)>) -> Seq<(Seq<char>, u64)> {
    v.map_values(|p: (String, u64)| (p.0@, p.1))
}


/// The views of a list of id lookups.
pub open spec fn lookups_view(v: Seq<Option<String>>) -> Seq<Option<Seq<char>>> {
    v.map_values(
        |o: Option<String>|
            match o {
                Some(s) => Some(s@),
                None => None,
            },
    )
}

/// `i` is the first member whose display name matches `name`, ignoring case.
pub open spec fn is_first_match(ms: Seq<GuildMember>, name: Seq<char>, i: int) -> bool {
    &&& 0 <= i < ms.len()
    &&& lowercase(ms[i].display_name@) == lowercase(name)
    &&& forall|j: int| 0 <= j < i ==> lowercase(#[trigger] ms[j].display_name@) != lowercase(name)
}

/// What a (trimmed) name resolves to: the special name to its fixed id,
/// otherwise the first member whose display name matches ignoring case.
pub open spec fn resolve_name(ms: Seq<GuildMember>, name: Seq<char>) -> Option<(Seq<char>, u64)> {
    if name == special_name() {
        Some((name, SPECIAL_ID))
    } else if exists|i: int| is_first_match(ms, name, i) {
        let i = choose|i: int| is_first_match(ms, name, i);
        Some((ms[i].display_name@, ms[i].id))
    } else {
        None
    }
}

/// The members found from a list of names, in order.
pub open spec fn names_found(ms: Seq<GuildMember>, names: Seq<Seq<char>>) -> Seq<(Seq<char>, u64)>
    decreases names.len(),
{
    if names.len() == 0 {
        Seq::empty()
    } else {
        let prev = names_found(ms, names.drop_last());
        match resolve_name(ms, trim_spec(names.last())) {
            Some(p) => prev.push(p),
            None => prev,
        }
    }
}

/// The trimmed names of a list that resolve to no member, in order.
pub open spec fn names_unknown(ms: Seq<GuildMember>, names: Seq<Seq<char>>) -> Seq<Seq<char>>
    decreases names.len(),
{
    if names.len() == 0 {
        Seq::empty()
    } else {
        let prev = names_unknown(ms, names.drop_last());
        match resolve_name(ms, trim_spec(names.last())) {
            Some(p) => prev,
            None => prev.push(trim_spec(names.last())),
        }
    }
}

/// The members found directly by id: for each entry whose id lookup
/// succeeded, the looked-up display name and the id, in order.
pub open spec fn ids_found(names: Seq<Seq<char>>, lookups: Seq<Option<Seq<char>>>) -> Seq<(Seq<char>, u64)>
    decreases names.len(),
{
    if names.len() == 0 || lookups.len() != names.len() {
        Seq::empty()
    } else {
        let prev = ids_found(names.drop_last(), lookups.drop_last());
        match lookups.last() {
            Some(d) => prev.push((d, parse_u64_spec(names.last()).unwrap())),
            None => prev,
        }
    }
}

/// The entries left to match by name: those whose id lookup did not succeed.
pub open spec fn left_by_name(names: Seq<Seq<char>>, lookups: Seq<Option<Seq<char>>>) -> Seq<Seq<char>>
    decreases names.len(),
{
    if names.len() == 0 || lookups.len() != names.len() {
        Seq::empty()
    } else {
        let prev = left_by_name(names.drop_last(), lookups.drop_last());
        match lookups.last() {
            Some(d) => prev,
            None => prev.push(names.last()),
        }
    }
}

/// For each entry, the id it names when it parses as an unsigned integer.
/// Each such id is then looked up in the guild before `find_members` runs.
pub fn candidate_ids(names_or_ids: &Vec<String>) -> (r: Vec<Option<u64>>)
    ensures
        r.len() == names_or_ids.len(),
        forall|i: int| 0 <= i < r.len() ==> r@[i] == parse_u64_spec(#[trigger] names_or_ids@[i]@),
{
    let mut r: Vec<Option<u64>> = Vec::new();
    let mut i: usize = 0;
    while i < names_or_ids.len()
        invariant
            i <= names_or_ids.len(),
            r.len() == i,
            forall|k: int| 0 <= k < i ==> r@[k] == parse_u64_spec(#[trigger] names_or_ids@[k]@),
        decreases names_or_ids.len() - i,
    {
        r.push(parse_u64(names_or_ids[i].as_str()));
        i += 1;
    }
    r
}

/// The first member whose display name matches `name` ignoring case.
fn first_match(members: &Vec<GuildMember>, name: &Vec<char>) -> (r: Option<usize>)
    ensures
        match r {
            Some(i) => is_first_match(members@, name@, i as int),
            None => forall|i: int| !is_first_match(members@, name@, i),
        },
{
    let key = to_lowercase(string_of(name).as_str());
    let mut i: usize = 0;
    while i < members.len()
        invariant
            i <= members.len(),
            key@ == lowercase(name@),
            forall|j: int| 0 <= j < i ==> lowercase(#[trigger] members@[j].display_name@) != lowercase(name@),
        decreases members.len() - i,
    {
        let m = to_lowercase(members[i].display_name.as_str());
        if m == key {
            return Some(i);
        }
        i += 1;
    }
    proof {
        assert forall|i: int| !is_first_match(members@, name@, i) by {
            if 0 <= i < members.len() {
                assert(lowercase(members@[i].display_name@) != lowercase(name@));
            }
        }
    }
    None
}

/// Resolves names and ids to guild members. An entry whose id lookup found
/// a member (`lookups[i]`, the display name found for the id it parses to)
/// is found by that id; the rest, trimmed, are matched by display name
/// ignoring case, the special name resolving to its fixed id. Gives the
/// members found (ids first, then names, each in input order) and the
/// names that matched nobody.
pub fn find_members(
    names_or_ids: &Vec<String>,
    lookups: &Vec<Option<String>>,
    members: &Vec<GuildMember>,
) -> (r: (Vec<(String, u64)>, Vec<String>))
    requires
        lookups.len() == names_or_ids.len(),
        forall|i: int|
            0 <= i < lookups.len() && (#[trigger] lookups@[i]).is_some() ==> parse_u64_spec(
                names_or_ids@[i]@,
            ).is_some(),
    ensures
        found_view(r.0@) == ids_found(views(names_or_ids@), lookups_view(lookups@))
            + names_found(members@, left_by_name(views(names_or_ids@), lookups_view(lookups@))),
        views(r.1@) == names_unknown(members@, left_by_name(views(names_or_ids@), lookups_view(lookups@))),
{
    let ghost names = views(names_or_ids@);
    let ghost looks = lookups_view(lookups@);
    let mut found: Vec<(String, u64)> = Vec::new();
    let mut rest: Vec<String> = Vec::new();
    let mut i: usize = 0;
    while i < names_or_ids.len()
        invariant
            i <= names_or_ids.len(),
            lookups.len() == names_or_ids.len(),
            names == views(names_or_ids@),
            looks == lookups_view(lookups@),
            forall|k: int|
                0 <= k < lookups.len() && (#[trigger] lookups@[k]).is_some() ==> parse_u64_spec(
                    names_or_ids@[k]@,
                ).is_some(),
            found_view(found@) == ids_found(names.take(i as int), looks.take(i as int)),
            views(rest@) == left_by_name(names.take(i as int), looks.take(i as int)),
        decreases names_or_ids.len() - i,
    {
        proof {
            assert(names.take(i + 1).drop_last() == names.take(i as int));
            assert(looks.take(i + 1).drop_last() == looks.take(i as int));
        }
        match &lookups[i] {
            Some(d) => {
                let id = parse_u64(names_or_ids[i].as_str()).unwrap();
                let ghost before = found@;
                found.push((d.clone(), id));
                proof {
                    assert(found_view(found@) == found_view(before).push((d@, id)));
                }
            },
            None => {
                let ghost before = rest@;
                rest.push(names_or_ids[i].clone());
                proof {
                    assert(views(rest@) == views(before).push(names_or_ids@[i as int]@));
                }
            },
        }
        i += 1;
    }
    proof {
        assert(names.take(names_or_ids.len() as int) == names);
        assert(looks.take(names_or_ids.len() as int) == looks);
    }
    let ghost left = views(rest@);
    let ghost ids_part = found_view(found@);
    let mut unknown: Vec<String> = Vec::new();
    let special = chars_of("Nathanial Greene");
    let mut k: usize = 0;
    while k < rest.len()
        invariant
            k <= rest.len(),
            left == views(rest@),
            special@ == special_name(),
            found_view(found@) == ids_part + names_found(members@, left.take(k as int)),
            views(unknown@) == names_unknown(members@, left.take(k as int)),
        decreases rest.len() - k,
    {
        proof {
            assert(left.take(k + 1).drop_last() == left.take(k as int));
            assert(left.take(k + 1).last() == rest@[k as int]@);
        }
        let t = trim(&chars_of(rest[k].as_str()));
        let ghost before_found = found@;
        let ghost before_unknown = unknown@;
        if t.len() == special.len() && crate::text::starts_with_chars(&t, &special) {
            proof {
                assert(t@ == t@.subrange(0, special@.len() as int));
            }
            found.push((string_of(&t), SPECIAL_ID));
            proof {
                assert(found_view(found@) == found_view(before_found).push((t@, SPECIAL_ID)));
            }
        } else {
            proof {
                if t@ == special_name() {
                    assert(special@.is_prefix_of(t@));
                }
            }
            match first_match(members, &t) {
                Some(m) => {
                    found.push((members[m].display_name.clone(), members[m].id));
                    proof {
                        assert(is_first_match(members@, t@, m as int));
                        assert(found_view(found@) == found_view(before_found).push(
                            (members@[m as int].display_name@, members@[m as int].id),
                        ));
                    }
                },
                None => {
                    unknown.push(string_of(&t));
                    proof {
                        assert(views(unknown@) == views(before_unknown).push(t@));
                    }
                },
            }
        }
        k += 1;
    }
    proof {
        assert(left.take(rest.len() as int) == left);
    }
    (found, unknown)
}

proof fn lemma_ids_split(names: Seq<Seq<char>>, lookups: Seq<Option<Seq<char>>>)
    requires
        lookups.len() == names.len(),
    ensures
        ids_found(names, lookups).len() + left_by_name(names, lookups).len() == names.len(),
    decreases names.len(),
{
    if names.len() > 0 {
        lemma_ids_split(names.drop_last(), lookups.drop_last());
    }
}

proof fn lemma_names_split(ms: Seq<GuildMember>, names: Seq<Seq<char>>)
    ensures
        names_found(ms, names).len() + names_unknown(ms, names).len() == names.len(),
    decreases names.len(),
{
    if names.len() > 0 {
        lemma_names_split(ms, names.drop_last());
    }
}

/// Every entry looked up ends up once: found by id, found by name, or
/// among the names that matched nobody.
pub proof fn law_every_name_accounted(
    ms: Seq<GuildMember>,
    names: Seq<Seq<char>>,
    lookups: Seq<Option<Seq<char>>>,
)
    requires
        lookups.len() == names.len(),
    ensures
        ids_found(names, lookups).len() + names_found(ms, left_by_name(names, lookups)).len()
            + names_unknown(ms, left_by_name(names, lookups)).len() == names.len(),
{
    lemma_ids_split(names, lookups);
    lemma_names_split(ms, left_by_name(names, lookups));
}

} // verus!
