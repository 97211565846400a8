//! Text primitives shared by the bot's message building: decimal rendering,
//! decimal parsing, and searching inside character sequences.
use vstd::prelude::*;

verus! {

/// The ASCII decimal digit for `d` (expected in `0..=9`).
pub open spec fn digit_char(d: nat) -> char {
    if d == 0 {
        '0'
    } else if d == 1 {
        '1'
    } else if d == 2 {
        '2'
    } else if d == 3 {
        '3'
    } else if d == 4 {
        '4'
    } else if d == 5 {
        '5'
    } else if d == 6 {
        '6'
    } else if d == 7 {
        '7'
    } else if d == 8 {
        '8'
    } else {
        '9'
    }
}

/// Whether `c` is an ASCII decimal digit.
pub open spec fn is_digit(c: char) -> bool {
    '0' <= c && c <= '9'
}

/// The numeric value of an ASCII decimal digit.
pub open spec fn digit_value(c: char) -> nat {
    (c as int - '0' as int) as nat
}

/// Decimal rendering of a natural number, most significant digit first,
/// without leading zeros (zero renders as `0`).
pub open spec fn decimal(n: nat) -> Seq<char>
    decreases n,
{
    if n < 10 {
        seq![digit_char(n)]
    } else {
        decimal(n / 10).push(digit_char(n % 10))
    }
}

/// Decimal rendering of an integer, with a leading `-` when negative.
pub open spec fn int_text(i: int) -> Seq<char> {
    if i < 0 {
        seq!['-'] + decimal((-i) as nat)
    } else {
        decimal(i as nat)
    }
}

/// Value of a sequence of decimal digits.
pub open spec fn digits_value(s: Seq<char>) -> nat
    decreases s.len(),
{
    if s.len() == 0 {
        0
    } else {
        digits_value(s.drop_last()) * 10 + digit_value(s.last())
    }
}

/// Whether `s` is a non-empty run of decimal digits.
pub open spec fn all_digits(s: Seq<char>) -> bool {
    s.len() > 0 && forall|i: int| 0 <= i < s.len() ==> is_digit(#[trigger] s[i])
}

/// What parsing `s` as a `u64` gives: an optional `+` sign followed by at
/// least one decimal digit, the value fitting in 64 bits.
pub open spec fn parse_u64_spec(s: Seq<char>) -> Option<u64> {
    let body = if s.len() > 0 && s[0] == '+' {
        s.drop_first()
    } else {
        s
    };
    if all_digits(body) && digits_value(body) <= u64::MAX {
        Some(digits_value(body) as u64)
    } else {
        None
    }
}

/// `p` occurs in `s` starting at position `i`.
pub open spec fn occurs_at(s: Seq<char>, p: Seq<char>, i: int) -> bool {
    0 <= i && i + p.len() <= s.len() && s.subrange(i, i + p.len()) == p
}

/// `p` occurs somewhere in `s` (the empty pattern occurs in every text).
pub open spec fn contains_seq(s: Seq<char>, p: Seq<char>) -> bool {
    exists|i: int| occurs_at(s, p, i)
}

/// The first position at which `p` occurs in `s`, if any.
pub open spec fn first_occurrence(s: Seq<char>, p: Seq<char>, i: int) -> bool {
    occurs_at(s, p, i) && forall|j: int| 0 <= j < i ==> !occurs_at(s, p, j)
}

/// Case folding as std's `str::to_lowercase` performs it.
pub uninterp spec fn lowercase(s: Seq<char>) -> Seq<char>;

/// Calls std's `String::push`: the string gains `c` at its end.
#[verifier::external_body]
pub(crate) fn push_char(s: &mut String, c: char)
    ensures
        final(s)@ == old(s)@.push(c),
{
    s.push(c);
}

/// Calls std's `str::to_lowercase`. The result is named by `lowercase`;
/// nothing else is claimed of the Unicode case mapping.
#[verifier::external_body]
pub(crate) fn to_lowercase(s: &str) -> (r: String)
    ensures
        r@ == lowercase(s@),
{
    s.to_lowercase()
}

/// Appends the text `lit` to `s`.
pub(crate) fn push_lit(s: &mut String, lit: &str)
    ensures
        final(s)@ == old(s)@ + lit@,
{
    push_chars(s, &chars_of(lit));
}

/// Appends the characters of `v` to `s`.
pub fn push_chars(s: &mut String, v: &Vec<char>)
    ensures
        final(s)@ == old(s)@ + v@,
{
    let mut i: usize = 0;
    while i < v.len()
        invariant
            i <= v.len(),
            s@ == old(s)@ + v@.subrange(0, i as int),
        decreases v.len() - i,
    {
        push_char(s, v[i]);
        assert(v@.subrange(0, i + 1) == v@.subrange(0, i as int).push(v@[i as int]));
        i += 1;
    }
    assert(v@.subrange(0, v.len() as int) == v@);
}

/// A string holding exactly the characters of `v`.
pub fn string_of(v: &Vec<char>) -> (s: String)
    ensures
        s@ == v@,
{
    let mut s = String::new();
    push_chars(&mut s, v);
    s
}

/// The characters of `s`, in order.
pub fn chars_of(s: &str) -> (v: Vec<char>)
    ensures
        v@ == s@,
{
    let mut v: Vec<char> = Vec::new();
    for c in it: s.chars()
        invariant
            it.seq() == s@,
            v@ == it.seq().take(it.index() as int),
    {
        v.push(c);
    }
    v
}

/// The ASCII digit for `d`.
pub fn digit(d: u64) -> (c: char)
    requires
        d < 10,
    ensures
        c == digit_char(d as nat),
{
    if d == 0 {
        '0'
    } else if d == 1 {
        '1'
    } else if d == 2 {
        '2'
    } else if d == 3 {
        '3'
    } else if d == 4 {
        '4'
    } else if d == 5 {
        '5'
    } else if d == 6 {
        '6'
    } else if d == 7 {
        '7'
    } else if d == 8 {
        '8'
    } else {
        '9'
    }
}

/// Appends the decimal rendering of `n` to `s`.
pub fn push_decimal(s: &mut String, n: u64)
    ensures
        final(s)@ == old(s)@ + decimal(n as nat),
    decreases n,
{
    if n >= 10 {
        push_decimal(s, n / 10);
    }
    push_char(s, digit(n % 10));
    if n < 10 {
        assert(decimal(n as nat) == seq![digit_char(n as nat)]);
        assert(n % 10 == n);
    } else {
        assert(decimal(n as nat) == decimal((n / 10) as nat).push(digit_char((n % 10) as nat)));
    }
}

/// Appends the decimal rendering of `i` (with `-` when negative) to `s`.
pub fn push_int(s: &mut String, i: i64)
    ensures
        final(s)@ == old(s)@ + int_text(i as int),
{
    if i < 0 {
        push_char(s, '-');
        let m: u64 = (0i128 - i as i128) as u64;
        push_decimal(s, m);
        assert(old(s)@.push('-') + decimal(m as nat) == old(s)@ + (seq!['-'] + decimal(m as nat)));
    } else {
        push_decimal(s, i as u64);
    }
}

/// The decimal rendering of `n`.
pub fn u64_text(n: u64) -> (s: String)
    ensures
        s@ == decimal(n as nat),
{
    let mut s = String::new();
    push_decimal(&mut s, n);
    assert(Seq::<char>::empty() + decimal(n as nat) == decimal(n as nat));
    s
}

/// The decimal rendering of `i`, with `-` when negative.
pub fn int_to_text(i: i64) -> (s: String)
    ensures
        s@ == int_text(i as int),
{
    let mut s = String::new();
    push_int(&mut s, i);
    assert(Seq::<char>::empty() + int_text(i as int) == int_text(i as int));
    s
}

/// A prefix of a run of digits is worth no more than the whole run.
pub proof fn lemma_digits_value_prefix(s: Seq<char>, k: int)
    requires
        0 <= k <= s.len(),
    ensures
        digits_value(s.take(k)) <= digits_value(s),
    decreases s.len(),
{
    if k < s.len() {
        lemma_digits_value_prefix(s.drop_last(), k);
        assert(s.drop_last().take(k) == s.take(k));
    } else {
        assert(s.take(k) == s);
    }
}

/// Parses `v` as std's `u64::from_str` does.
pub fn parse_u64_chars(v: &Vec<char>) -> (r: Option<u64>)
    ensures
        r == parse_u64_spec(v@),
{
    let start: usize = if v.len() > 0 && v[0] == '+' {
        1
    } else {
        0
    };
    let ghost body = if v@.len() > 0 && v@[0] == '+' {
        v@.drop_first()
    } else {
        v@
    };
    assert(body == v@.subrange(start as int, v.len() as int));
    if start == v.len() {
        return None;
    }
    let mut acc: u64 = 0;
    let mut i: usize = start;
    while i < v.len()
        invariant
            start <= i <= v.len(),
            start < v.len(),
            body == v@.subrange(start as int, v.len() as int),
            body == (if v@.len() > 0 && v@[0] == '+' {
                v@.drop_first()
            } else {
                v@
            }),
            forall|j: int| start <= j < i ==> is_digit(#[trigger] v@[j]),
            acc == digits_value(v@.subrange(start as int, i as int)),
        decreases v.len() - i,
    {
        let c = v[i];
        if !('0' <= c && c <= '9') {
            assert(body[i - start] == c);
            assert(!is_digit(body[i - start]));
            return None;
        }
        let d: u64 = (c as u32 - '0' as u32) as u64;
        let ghost next = v@.subrange(start as int, i + 1);
        assert(next.drop_last() == v@.subrange(start as int, i as int));
        assert(next.last() == c);
        assert(digits_value(next) == acc * 10 + digit_value(c));
        match acc.checked_mul(10) {
            None => {
                proof {
                    lemma_digits_value_prefix(body, i + 1 - start);
                    assert(body.take(i + 1 - start) == next);
                }
                return None;
            },
            Some(m) => match m.checked_add(d) {
                None => {
                    proof {
                        lemma_digits_value_prefix(body, i + 1 - start);
                        assert(body.take(i + 1 - start) == next);
                    }
                    return None;
                },
                Some(a) => {
                    acc = a;
                },
            },
        }
        i += 1;
    }
    assert(v@.subrange(start as int, v.len() as int) == body);
    Some(acc)
}

/// Parses `s` as std's `u64::from_str` does.
pub fn parse_u64(s: &str) -> (r: Option<u64>)
    ensures
        r == parse_u64_spec(s@),
{
    let v = chars_of(s);
    parse_u64_chars(&v)
}

/// Whether `p` occurs in `s` at position `i`.
pub fn occurs_at_exec(s: &Vec<char>, p: &Vec<char>, i: usize) -> (r: bool)
    ensures
        r == occurs_at(s@, p@, i as int),
{
    if i > s.len() || p.len() > s.len() - i {
        return false;
    }
    let mut k: usize = 0;
    while k < p.len()
        invariant
            i + p.len() <= s.len(),
            k <= p.len(),
            forall|j: int| 0 <= j < k ==> s@[i + j] == p@[j],
        decreases p.len() - k,
    {
        if s[i + k] != p[k] {
            assert(s@.subrange(i as int, i + p.len())[k as int] != p@[k as int]);
            return false;
        }
        k += 1;
    }
    assert(s@.subrange(i as int, i + p.len()) == p@);
    true
}

/// The first position at which `p` occurs in `s`, or `None` when it does not occur.
pub fn find_chars(s: &Vec<char>, p: &Vec<char>) -> (r: Option<usize>)
    ensures
        match r {
            Some(i) => first_occurrence(s@, p@, i as int),
            None => !contains_seq(s@, p@),
        },
{
    let mut i: usize = 0;
    while i < s.len()
        invariant
            i <= s.len(),
            forall|j: int| 0 <= j < i ==> !occurs_at(s@, p@, j),
        decreases s.len() - i,
    {
        if occurs_at_exec(s, p, i) {
            return Some(i);
        }
        i += 1;
    }
    if occurs_at_exec(s, p, i) {
        return Some(i);
    }
    assert forall|j: int| !occurs_at(s@, p@, j) by {
        if 0 <= j <= i {
        }
    }
    None
}

/// Whether `p` occurs in `s`.
pub fn contains_chars(s: &Vec<char>, p: &Vec<char>) -> (r: bool)
    ensures
        r == contains_seq(s@, p@),
{
    match find_chars(s, p) {
        Some(i) => true,
        None => false,
    }
}

/// Whether `s` begins with `p`.
pub fn starts_with_chars(s: &Vec<char>, p: &Vec<char>) -> (r: bool)
    ensures
        r == p@.is_prefix_of(s@),
{
    let r = occurs_at_exec(s, p, 0);
    proof {
        if r {
            assert(s@.subrange(0, p@.len() as int) == p@);
        }
        if p@.is_prefix_of(s@) {
            assert(s@.subrange(0, p@.len() as int) == p@);
        }
    }
    r
}

/// Whether `s` ends with `p`.
pub fn ends_with_chars(s: &Vec<char>, p: &Vec<char>) -> (r: bool)
    ensures
        r == p@.is_suffix_of(s@),
{
    if p.len() > s.len() {
        return false;
    }
    let r = occurs_at_exec(s, p, s.len() - p.len());
    proof {
        if p@.is_suffix_of(s@) {
            assert(s@.subrange(s@.len() - p@.len(), s@.len() as int) == p@);
        }
    }
    r
}

/// `s` with every non-overlapping occurrence of the non-empty pattern `p`,
/// scanning from the left, replaced by `r` (std's `str::replace`).
pub open spec fn replace_spec(s: Seq<char>, p: Seq<char>, r: Seq<char>) -> Seq<char>
    decreases s.len(),
{
    if p.len() == 0 || s.len() == 0 {
        s
    } else if p.is_prefix_of(s) {
        r + replace_spec(s.skip(p.len() as int), p, r)
    } else {
        seq![s[0]] + replace_spec(s.drop_first(), p, r)
    }
}

/// `s` with the pattern `p` removed from its front as many times as it
/// occurs there (std's `str::trim_start_matches`).
pub open spec fn trim_start_matches_spec(s: Seq<char>, p: Seq<char>) -> Seq<char>
    decreases s.len(),
{
    if p.len() > 0 && p.is_prefix_of(s) {
        trim_start_matches_spec(s.skip(p.len() as int), p)
    } else {
        s
    }
}

/// What follows the first occurrence of `p` in `s`, or `None` when `p`
/// does not occur (the second half of std's `str::split_once`).
pub open spec fn after_first_spec(s: Seq<char>, p: Seq<char>) -> Option<Seq<char>> {
    if contains_seq(s, p) {
        let i = choose|i: int| first_occurrence(s, p, i);
        Some(s.skip(i + p.len()))
    } else {
        None
    }
}

pub(crate) proof fn lemma_first_occurrence_unique(s: Seq<char>, p: Seq<char>, i: int, j: int)
    requires
        first_occurrence(s, p, i),
        first_occurrence(s, p, j),
    ensures
        i == j,
{
    if i < j {
        assert(!occurs_at(s, p, i));
    } else if j < i {
        assert(!occurs_at(s, p, j));
    }
}

/// What follows the first occurrence of `p` in `s`, if `p` occurs.
pub fn after_first(s: &Vec<char>, p: &Vec<char>) -> (r: Option<Vec<char>>)
    ensures
        match r {
            Some(v) => after_first_spec(s@, p@) == Some(v@),
            None => after_first_spec(s@, p@).is_none(),
        },
{
    match find_chars(s, p) {
        None => None,
        Some(i) => {
            proof {
                let c = choose|c: int| first_occurrence(s@, p@, c);
                lemma_first_occurrence_unique(s@, p@, i as int, c);
                assert(occurs_at(s@, p@, i as int));
                assert(i + p@.len() <= s@.len());
                assert(i + p.len() <= s.len());
            }
            let mut v: Vec<char> = Vec::new();
            let mut k: usize = i + p.len();
            while k < s.len()
                invariant
                    i + p.len() <= k <= s.len(),
                    v@ == s@.subrange(i + p.len(), k as int),
                decreases s.len() - k,
            {
                v.push(s[k]);
                assert(s@.subrange(i + p.len(), k + 1) == s@.subrange(i + p.len(), k as int).push(
                    s@[k as int],
                ));
                k += 1;
            }
            Some(v)
        },
    }
}

/// `s` with every occurrence of the non-empty `p` replaced by `r`, as std's
/// `str::replace` does.
pub fn replace_chars(s: &Vec<char>, p: &Vec<char>, r: &Vec<char>) -> (out: Vec<char>)
    requires
        p.len() > 0,
    ensures
        out@ == replace_spec(s@, p@, r@),
{
    let mut out: Vec<char> = Vec::new();
    let mut i: usize = 0;
    assert(s@.skip(0) == s@);
    assert(out@ + replace_spec(s@, p@, r@) == replace_spec(s@, p@, r@));
    while i < s.len()
        invariant
            i <= s.len(),
            p.len() > 0,
            out@ + replace_spec(s@.skip(i as int), p@, r@) == replace_spec(s@, p@, r@),
        decreases s.len() - i,
    {
        let ghost rest = s@.skip(i as int);
        if occurs_at_exec(s, p, i) {
            proof {
                assert(rest.subrange(0, p@.len() as int) == s@.subrange(i as int, i + p@.len()));
                assert(p@.is_prefix_of(rest));
                assert(rest.skip(p@.len() as int) == s@.skip(i + p@.len()));
            }
            let ghost before = out@;
            let mut k: usize = 0;
            while k < r.len()
                invariant
                    k <= r.len(),
                    out@ == before + r@.subrange(0, k as int),
                decreases r.len() - k,
            {
                out.push(r[k]);
                assert(r@.subrange(0, k + 1) == r@.subrange(0, k as int).push(r@[k as int]));
                k += 1;
            }
            proof {
                assert(r@.subrange(0, r@.len() as int) == r@);
            }
            i += p.len();
        } else {
            proof {
                if p@.is_prefix_of(rest) {
                    assert(s@.subrange(i as int, i + p@.len()) == rest.subrange(0, p@.len() as int));
                }
                assert(rest.drop_first() == s@.skip(i + 1));
                assert(rest[0] == s@[i as int]);
            }
            out.push(s[i]);
            i += 1;
        }
    }
    proof {
        assert(s@.skip(i as int).len() == 0);
        assert(out@ + Seq::<char>::empty() == out@);
    }
    out
}

/// `s` with every leading repetition of the non-empty `p` removed, as std's
/// `str::trim_start_matches` does.
pub fn trim_start_matches(s: &Vec<char>, p: &Vec<char>) -> (out: Vec<char>)
    requires
        p.len() > 0,
    ensures
        out@ == trim_start_matches_spec(s@, p@),
{
    let mut i: usize = 0;
    assert(s@.skip(0) == s@);
    while occurs_at_exec(s, p, i)
        invariant
            i <= s.len(),
            p.len() > 0,
            trim_start_matches_spec(s@.skip(i as int), p@) == trim_start_matches_spec(s@, p@),
        decreases s.len() - i,
    {
        proof {
            let rest = s@.skip(i as int);
            assert(rest.subrange(0, p@.len() as int) == s@.subrange(i as int, i + p@.len()));
            assert(rest.skip(p@.len() as int) == s@.skip(i + p@.len()));
        }
        i += p.len();
    }
    proof {
        let rest = s@.skip(i as int);
        if p@.is_prefix_of(rest) {
            assert(s@.subrange(i as int, i + p@.len()) == rest.subrange(0, p@.len() as int));
        }
    }
    let mut out: Vec<char> = Vec::new();
    let mut k: usize = i;
    while k < s.len()
        invariant
            i <= k <= s.len(),
            out@ == s@.subrange(i as int, k as int),
        decreases s.len() - k,
    {
        out.push(s[k]);
        assert(s@.subrange(i as int, k + 1) == s@.subrange(i as int, k as int).push(s@[k as int]));
        k += 1;
    }
    out
}

/// The texts of `items` joined by `sep`.
pub open spec fn join_spec(items: Seq<Seq<char>>, sep: Seq<char>) -> Seq<char>
    decreases items.len(),
{
    if items.len() == 0 {
        Seq::empty()
    } else if items.len() == 1 {
        items[0]
    } else {
        join_spec(items.drop_last(), sep) + sep + items.last()
    }
}

/// The views of a list of strings.
pub open spec fn views(v: Seq<String>) -> Seq<Seq<char>> {
    v.map_values(|s: String| s@)
}

/// The strings of `items` joined by `sep`.
pub fn join_strings(items: &Vec<String>, sep: &str) -> (r: String)
    ensures
        r@ == join_spec(views(items@), sep@),
{
    let ghost all = views(items@);
    let mut r = String::new();
    let mut i: usize = 0;
    while i < items.len()
        invariant
            i <= items.len(),
            all == views(items@),
            r@ == join_spec(all.take(i as int), sep@),
        decreases items.len() - i,
    {
        proof {
            assert(all.take(i + 1).drop_last() == all.take(i as int));
            assert(all.take(i + 1).last() == items@[i as int]@);
        }
        if i > 0 {
            r.append(sep);
        } else {
            assert(all.take(1) == seq![items@[0]@]);
        }
        r.append(items[i].as_str());
        i += 1;
    }
    assert(all.take(items.len() as int) == all);
    r
}

/// The `i64` a text denotes, as std's `str::parse::<i64>` reads it: an
/// optional sign, then decimal digits, the value in range.
pub open spec fn parse_i64_spec(s: Seq<char>) -> Option<i64> {
    if s.len() > 0 && s[0] == '-' {
        let body = s.drop_first();
        if all_digits(body) && digits_value(body) <= 0x8000_0000_0000_0000 {
            Some((-digits_value(body)) as i64)
        } else {
            None
        }
    } else {
        match parse_u64_spec(s) {
            Some(v) => if v <= i64::MAX {
                Some(v as i64)
            } else {
                None
            },
            None => None,
        }
    }
}

/// The `i64` a text denotes (see `parse_i64_spec`).
pub fn parse_i64(s: &str) -> (r: Option<i64>)
    ensures
        r == parse_i64_spec(s@),
{
    let v = chars_of(s);
    if v.len() > 0 && v[0] == '-' {
        if v.len() > 1 && v[1] == '+' {
            proof {
                assert(v@.drop_first()[0] == '+');
                assert(!is_digit(v@.drop_first()[0]));
            }
            return None;
        }
        let mut body: Vec<char> = Vec::new();
        let mut k: usize = 1;
        while k < v.len()
            invariant
                1 <= k <= v.len(),
                body@ == v@.subrange(1, k as int),
            decreases v.len() - k,
        {
            body.push(v[k]);
            assert(v@.subrange(1, k + 1) == v@.subrange(1, k as int).push(v@[k as int]));
            k += 1;
        }
        assert(body@ == v@.drop_first());
        match parse_u64_chars(&body) {
            Some(n) => {
                if n <= 0x8000_0000_0000_0000u64 {
                    if n == 0x8000_0000_0000_0000u64 {
                        Some(i64::MIN)
                    } else {
                        Some(0i64 - (n as i64))
                    }
                } else {
                    None
                }
            },
            None => None,
        }
    } else {
        match parse_u64_chars(&v) {
            Some(n) => if n <= i64::MAX as u64 {
                Some(n as i64)
            } else {
                None
            },
            None => None,
        }
    }
}

proof fn lemma_digit_char(d: nat)
    requires
        d < 10,
    ensures
        is_digit(digit_char(d)),
        digit_value(digit_char(d)) == d,
{
}

pub(crate) proof fn lemma_decimal_digits(n: nat)
    ensures
        all_digits(decimal(n)),
        digits_value(decimal(n)) == n,
        decimal(n).len() > 0,
    decreases n,
{
    lemma_digit_char(n % 10);
    if n < 10 {
        let d = decimal(n);
        assert(d.drop_last() == Seq::<char>::empty());
        assert(n % 10 == n);
        assert(d.last() == digit_char(n));
        assert(digits_value(d) == digits_value(d.drop_last()) * 10 + digit_value(d.last()));
        assert(digits_value(Seq::<char>::empty()) == 0);
    } else {
        lemma_decimal_digits(n / 10);
        let d = decimal(n);
        assert(d.drop_last() == decimal(n / 10));
        assert(d.last() == digit_char(n % 10));
        assert(n == (n / 10) * 10 + n % 10);
        assert(digits_value(d) == digits_value(d.drop_last()) * 10 + digit_value(d.last()));
        assert forall|i: int| 0 <= i < d.len() implies is_digit(#[trigger] d[i]) by {
            if i < d.len() - 1 {
                assert(d[i] == decimal(n / 10)[i]);
            }
        }
    }
}

/// Reading back the decimal text of a number gives the number.
pub proof fn law_decimal_round_trip(n: u64)
    ensures
        parse_u64_spec(decimal(n as nat)) == Some(n),
        parse_i64_spec(int_text(n as int)) == (if n <= i64::MAX as u64 {
            Some(n as i64)
        } else {
            None::<i64>
        }),
{
    lemma_decimal_digits(n as nat);
    let d = decimal(n as nat);
    assert(is_digit(d[0]));
}

/// A replacement leaves a text without the pattern unchanged.
pub proof fn law_replace_absent(s: Seq<char>, p: Seq<char>, r: Seq<char>)
    requires
        !contains_seq(s, p),
    ensures
        replace_spec(s, p, r) == s,
    decreases s.len(),
{
    if p.len() > 0 && s.len() > 0 {
        if p.is_prefix_of(s) {
            assert(occurs_at(s, p, 0));
        } else {
            assert(!contains_seq(s.drop_first(), p)) by {
                if contains_seq(s.drop_first(), p) {
                    let i = choose|i: int| occurs_at(s.drop_first(), p, i);
                    assert(s.subrange(i + 1, i + 1 + p.len()) == s.drop_first().subrange(i, i + p.len()));
                    assert(occurs_at(s, p, i + 1));
                }
            }
            law_replace_absent(s.drop_first(), p, r);
            assert(seq![s[0]] + s.drop_first() == s);
        }
    }
}

} // verus!
