//! Mission briefings: the text assembled from a mission's briefing parts,
//! its split into one message per section, and the cleanup of old briefings.
use vstd::prelude::*;

use crate::text::{chars_of, replace_chars, replace_spec, string_of, views};

verus! {

/// The position of the first line feed in `s`, or its length when there is none.
pub open spec fn line_end(s: Seq<char>) -> int
    decreases s.len(),
{
    if s.len() == 0 {
        0
    } else if s[0] == '\n' {
        0
    } else {
        1 + line_end(s.drop_first())
    }
}

/// Where the first line of a text ends.
pub proof fn lemma_line_end(s: Seq<char>)
    ensures
        0 <= line_end(s) <= s.len(),
        line_end(s) < s.len() ==> s[line_end(s)] == '\n',
        forall|k: int| 0 <= k < line_end(s) ==> s[k] != '\n',
    decreases s.len(),
{
    if s.len() > 0 && s[0] != '\n' {
        lemma_line_end(s.drop_first());
        assert forall|k: int| 0 <= k < line_end(s) implies s[k] != '\n' by {
            if k > 0 {
                assert(s[k] == s.drop_first()[k - 1]);
            }
        }
    }
}

/// A line without the carriage return that ended it.
pub open spec fn strip_cr(l: Seq<char>) -> Seq<char> {
    if l.len() > 0 && l.last() == '\r' {
        l.drop_last()
    } else {
        l
    }
}

/// The lines of a text as std's `str::lines` gives them: split at each line
/// feed, a carriage return right before it dropped, and no empty line after
/// a final line feed.
pub open spec fn lines_spec(s: Seq<char>) -> Seq<Seq<char>>
    decreases s.len(),
{
    if s.len() == 0 {
        Seq::empty()
    } else {
        let e = line_end(s);
        proof {
            lemma_line_end(s);
        }
        if e == s.len() {
            seq![s]
        } else {
            seq![strip_cr(s.take(e))] + lines_spec(s.skip(e + 1))
        }
    }
}

/// The lines of a text (see `lines_spec`).
pub fn lines(text: &Vec<char>) -> (r: Vec<Vec<char>>)
    ensures
        r@.map_values(|l: Vec<char>| l@) == lines_spec(text@),
{
    let mut r: Vec<Vec<char>> = Vec::new();
    let mut start: usize = 0;
    assert(text@.skip(0) == text@);
    while start < text.len()
        invariant
            start <= text.len(),
            r@.map_values(|l: Vec<char>| l@) + lines_spec(text@.skip(start as int)) == lines_spec(
                text@,
            ),
        decreases text.len() - start,
    {
        let ghost rest = text@.skip(start as int);
        proof {
            lemma_line_end(rest);
        }
        let mut line: Vec<char> = Vec::new();
        let mut k: usize = start;
        while k < text.len() && text[k] != '\n'
            invariant
                start <= k <= text.len(),
                rest == text@.skip(start as int),
                line@ == text@.subrange(start as int, k as int),
                forall|j: int| start <= j < k ==> text@[j] != '\n',
            decreases text.len() - k,
        {
            line.push(text[k]);
            assert(text@.subrange(start as int, k + 1) == text@.subrange(start as int, k as int).push(
                text@[k as int],
            ));
            k += 1;
        }
        proof {
            assert forall|j: int| 0 <= j < k - start implies rest[j] != '\n' by {
                assert(rest[j] == text@[start + j]);
            }
            if k < text.len() {
                assert(rest[k - start] == '\n');
            }
            if line_end(rest) < k - start {
                assert(rest[line_end(rest)] == '\n');
            }
            if line_end(rest) > k - start {
                assert(rest[k - start] != '\n');
            }
            assert(line_end(rest) == k - start);
            assert(rest.take(k - start) == line@);
        }
        let ghost before = r@;
        if k == text.len() {
            r.push(line);
            proof {
                assert(rest == line@);
                assert(r@.map_values(|l: Vec<char>| l@) == before.map_values(|l: Vec<char>| l@).push(
                    rest,
                ));
                assert(text@.skip(text.len() as int) == Seq::<char>::empty());
            }
            start = k;
        } else {
            let mut stripped = line;
            if stripped.len() > 0 && stripped[stripped.len() - 1] == '\r' {
                stripped.pop();
            }
            proof {
                assert(stripped@ == strip_cr(rest.take(k - start)));
                assert(rest.skip(k - start + 1) == text@.skip(k + 1));
            }
            r.push(stripped);
            proof {
                assert(r@.map_values(|l: Vec<char>| l@) == before.map_values(|l: Vec<char>| l@).push(
                    stripped@,
                ));
            }
            start = k + 1;
        }
    }
    proof {
        assert(text@.skip(start as int) == Seq::<char>::empty());
    }
    r
}

/// A text without its trailing line feeds.
pub open spec fn trim_end_newlines(s: Seq<char>) -> Seq<char>
    decreases s.len(),
{
    if s.len() > 0 && s.last() == '\n' {
        trim_end_newlines(s.drop_last())
    } else {
        s
    }
}

/// The sections finished so far and the section being gathered, after the
/// given lines: a line starting `## ` closes the section being gathered
/// (kept when not empty) and opens a new one; any other line is added to
/// the section being gathered after a line feed.
pub open spec fn sections_state(lines: Seq<Seq<char>>) -> (Seq<Seq<char>>, Seq<char>)
    decreases lines.len(),
{
    if lines.len() == 0 {
        (Seq::empty(), Seq::empty())
    } else {
        let (secs, cur) = sections_state(lines.drop_last());
        let l = lines.last();
        if "## "@.is_prefix_of(l) {
            (
                if cur.len() > 0 {
                    secs.push(trim_end_newlines(cur))
                } else {
                    secs
                },
                l,
            )
        } else {
            (secs, cur.push('\n') + l)
        }
    }
}

/// The messages a briefing is posted as: its sections, each without
/// trailing line feeds.
pub open spec fn sections_spec(text: Seq<char>) -> Seq<Seq<char>> {
    let (secs, cur) = sections_state(lines_spec(text));
    if cur.len() > 0 {
        secs.push(trim_end_newlines(cur))
    } else {
        secs
    }
}

fn trim_end_newlines_exec(s: &Vec<char>) -> (r: String)
    ensures
        r@ == trim_end_newlines(s@),
{
    let mut e: usize = s.len();
    assert(s@.subrange(0, s.len() as int) == s@);
    while e > 0 && s[e - 1] == '\n'
        invariant
            e <= s.len(),
            trim_end_newlines(s@) == trim_end_newlines(s@.subrange(0, e as int)),
        decreases e,
    {
        assert(s@.subrange(0, e as int).drop_last() == s@.subrange(0, e - 1));
        e -= 1;
    }
    let mut out: Vec<char> = Vec::new();
    let mut k: usize = 0;
    while k < e
        invariant
            k <= e,
            e <= s.len(),
            out@ == s@.subrange(0, k as int),
        decreases e - k,
    {
        out.push(s[k]);
        assert(s@.subrange(0, k + 1) == s@.subrange(0, k as int).push(s@[k as int]));
        k += 1;
    }
    string_of(&out)
}

/// The messages a briefing is posted as (see `sections_spec`).
pub fn briefing_sections(text: &str) -> (r: Vec<String>)
    ensures
        views(r@) == sections_spec(text@),
{
    let t = chars_of(text);
    let ls = lines(&t);
    let ghost all = ls@.map_values(|l: Vec<char>| l@);
    let heading = chars_of("## ");
    let mut sections: Vec<String> = Vec::new();
    let mut current: Vec<char> = Vec::new();
    let mut i: usize = 0;
    while i < ls.len()
        invariant
            i <= ls.len(),
            heading@ == "## "@,
            all == ls@.map_values(|l: Vec<char>| l@),
            all == lines_spec(text@),
            (views(sections@), current@) == sections_state(all.take(i as int)),
        decreases ls.len() - i,
    {
        proof {
            assert(all.take(i + 1).drop_last() == all.take(i as int));
            assert(all.take(i + 1).last() == ls@[i as int]@);
        }
        let line = &ls[i];
        if crate::text::starts_with_chars(line, &heading) {
            if current.len() > 0 {
                let ghost before = sections@;
                sections.push(trim_end_newlines_exec(&current));
                assert(views(sections@) == views(before).push(trim_end_newlines(current@)));
            }
            current = copy_chars(line);
        } else {
            current.push('\n');
            let mut k: usize = 0;
            let ghost base = current@;
            while k < line.len()
                invariant
                    k <= line.len(),
                    current@ == base + line@.subrange(0, k as int),
                decreases line.len() - k,
            {
                current.push(line[k]);
                assert(line@.subrange(0, k + 1) == line@.subrange(0, k as int).push(line@[k as int]));
                k += 1;
            }
            assert(line@.subrange(0, line.len() as int) == line@);
        }
        i += 1;
    }
    assert(all.take(ls.len() as int) == all);
    if current.len() > 0 {
        let ghost before = sections@;
        sections.push(trim_end_newlines_exec(&current));
        assert(views(sections@) == views(before).push(trim_end_newlines(current@)));
    }
    sections
}

fn copy_chars(v: &Vec<char>) -> (r: Vec<char>)
    ensures
        r@ == v@,
{
    let mut r: Vec<char> = Vec::new();
    let mut k: usize = 0;
    while k < v.len()
        invariant
            k <= v.len(),
            r@ == v@.subrange(0, k as int),
        decreases v.len() - k,
    {
        r.push(v[k]);
        assert(v@.subrange(0, k + 1) == v@.subrange(0, k as int).push(v@[k as int]));
        k += 1;
    }
    assert(v@.subrange(0, v.len() as int) == v@);
    r
}

/// The position of the first `c` in `s` at or after `i`, or the length of
/// `s` when there is none.
pub open spec fn find_from(s: Seq<char>, c: char, i: int) -> int
    decreases s.len() - i,
{
    if i >= s.len() {
        s.len() as int
    } else if s[i] == c {
        i
    } else {
        find_from(s, c, i + 1)
    }
}

/// Facts about `find_from`.
pub proof fn lemma_find_from(s: Seq<char>, c: char, i: int)
    requires
        0 <= i <= s.len(),
    ensures
        i <= find_from(s, c, i) <= s.len(),
        find_from(s, c, i) < s.len() ==> s[find_from(s, c, i)] == c,
        forall|k: int| i <= k < find_from(s, c, i) ==> s[k] != c,
    decreases s.len() - i,
{
    if i < s.len() && s[i] != c {
        lemma_find_from(s, c, i + 1);
    }
}

proof fn lemma_find_from_shift(s: Seq<char>, c: char, i: int, d: int)
    requires
        0 <= d <= i <= s.len(),
    ensures
        find_from(s, c, i) - d == find_from(s.skip(d), c, i - d),
    decreases s.len() - i,
{
    if i < s.len() {
        assert(s.skip(d)[i - d] == s[i]);
        if s[i] != c {
            lemma_find_from_shift(s, c, i + 1, d);
        }
    }
}

/// The first position at or after `i` holding `c` (the length when none).
pub fn find_char_from(s: &Vec<char>, c: char, i: usize) -> (r: usize)
    requires
        i <= s.len(),
    ensures
        r == find_from(s@, c, i as int),
{
    let mut k: usize = i;
    while k < s.len() && s[k] != c
        invariant
            i <= k <= s.len(),
            find_from(s@, c, i as int) == find_from(s@, c, k as int),
        decreases s.len() - k,
    {
        k += 1;
    }
    k
}

/// What a tag is replaced by: a heading marker for colour tags, nothing otherwise.
pub open spec fn tag_replacement(tag: Seq<char>) -> Seq<char> {
    if crate::text::contains_seq(tag, "color"@) {
        "### "@
    } else {
        Seq::empty()
    }
}

/// A text with each markup tag `<...>` (at least one character, no `>`
/// inside) replaced, scanning from the left as the pattern `<([^>]+)>` is
/// matched.
pub open spec fn tags_replaced(s: Seq<char>) -> Seq<char>
    decreases s.len(),
{
    if s.len() == 0 {
        Seq::empty()
    } else {
        let g = find_from(s, '>', 1);
        proof {
            lemma_find_from(s, '>', 1);
        }
        if s[0] == '<' && 2 <= g < s.len() {
            tag_replacement(s.subrange(1, g)) + tags_replaced(s.skip(g + 1))
        } else {
            seq![s[0]] + tags_replaced(s.drop_first())
        }
    }
}

/// A text with its markup tags replaced (see `tags_replaced`).
pub fn replace_tags(s: &Vec<char>) -> (out: Vec<char>)
    ensures
        out@ == tags_replaced(s@),
{
    let color = chars_of("color");
    let mut out: Vec<char> = Vec::new();
    let mut i: usize = 0;
    assert(s@.skip(0) == s@);
    assert(out@ + tags_replaced(s@) == tags_replaced(s@));
    while i < s.len()
        invariant
            i <= s.len(),
            color@ == "color"@,
            out@ + tags_replaced(s@.skip(i as int)) == tags_replaced(s@),
        decreases s.len() - i,
    {
        let ghost rest = s@.skip(i as int);
        let g = if i + 1 <= s.len() {
            find_char_from(s, '>', i + 1)
        } else {
            s.len()
        };
        proof {
            lemma_find_from_shift(s@, '>', i + 1, i as int);
            lemma_find_from(s@, '>', i + 1);
            assert(rest[0] == s@[i as int]);
        }
        if s[i] == '<' && g > i + 1 && g < s.len() {
            let mut tag: Vec<char> = Vec::new();
            let mut k: usize = i + 1;
            while k < g
                invariant
                    i + 1 <= k <= g,
                    g <= s.len(),
                    tag@ == s@.subrange(i + 1, k as int),
                decreases g - k,
            {
                tag.push(s[k]);
                assert(s@.subrange(i + 1, k + 1) == s@.subrange(i + 1, k as int).push(s@[k as int]));
                k += 1;
            }
            proof {
                assert(rest.subrange(1, g - i) == tag@);
                assert(rest.skip(g - i + 1) == s@.skip(g + 1));
            }
            let ghost before = out@;
            if crate::text::contains_chars(&tag, &color) {
                out.push('#');
                out.push('#');
                out.push('#');
                out.push(' ');
                proof {
                    reveal_strlit("### ");
                    assert(out@ == before + "### "@);
                }
            } else {
                assert(out@ == before + Seq::<char>::empty());
            }
            proof {
                assert(out@ == before + tag_replacement(rest.subrange(1, g - i)));
                assert(tags_replaced(rest) == tag_replacement(rest.subrange(1, g - i))
                    + tags_replaced(rest.skip(g - i + 1)));
                assert(out@ + tags_replaced(s@.skip(g + 1)) == before + tags_replaced(rest));
            }
            i = g + 1;
        } else {
            proof {
                assert(rest.drop_first() == s@.skip(i + 1));
            }
            out.push(s[i]);
            i += 1;
        }
    }
    proof {
        assert(s@.skip(i as int) == Seq::<char>::empty());
        assert(out@ + Seq::<char>::empty() == out@);
    }
    out
}

/// A single or double quote, which delimits an attribute's value.
pub open spec fn is_quote(c: char) -> bool {
    c == '\'' || c == '"'
}

/// The position of the first quote in `s` at or after `i` (the length when none).
pub open spec fn quote_end(s: Seq<char>, i: int) -> int
    decreases s.len() - i,
{
    if i >= s.len() {
        s.len() as int
    } else if is_quote(s[i]) {
        i
    } else {
        quote_end(s, i + 1)
    }
}

proof fn lemma_quote_end(s: Seq<char>, i: int)
    requires
        0 <= i <= s.len(),
    ensures
        i <= quote_end(s, i) <= s.len(),
    decreases s.len() - i,
{
    if i < s.len() && !is_quote(s[i]) {
        lemma_quote_end(s, i + 1);
    }
}

/// At position `p` of `attrs` stands `key` (such as `image=`), then a quote,
/// then at least one character that is not a quote.
pub open spec fn attr_at(attrs: Seq<char>, key: Seq<char>, p: int) -> bool {
    &&& crate::text::occurs_at(attrs, key, p)
    &&& p + key.len() + 1 < attrs.len()
    &&& is_quote(attrs[p + key.len()])
    &&& !is_quote(attrs[p + key.len() + 1])
}

/// The value of the leftmost `key` at or after `p` that is followed by a
/// quoted value (the run of non-quote characters after the quote), as the
/// pattern `key(?:'|")([^'"]+)` finds it.
pub open spec fn attr_from(attrs: Seq<char>, key: Seq<char>, p: int) -> Option<Seq<char>>
    decreases attrs.len() - p,
{
    if p < 0 || p >= attrs.len() {
        None
    } else if attr_at(attrs, key, p) {
        let q = p + key.len() + 1;
        Some(attrs.subrange(q, quote_end(attrs, q)))
    } else {
        attr_from(attrs, key, p + 1)
    }
}

fn quote_end_exec(s: &Vec<char>, i: usize) -> (r: usize)
    requires
        i <= s.len(),
    ensures
        r == quote_end(s@, i as int),
        i <= r <= s.len(),
{
    let mut k: usize = i;
    while k < s.len() && s[k] != '\'' && s[k] != '"'
        invariant
            i <= k <= s.len(),
            quote_end(s@, i as int) == quote_end(s@, k as int),
        decreases s.len() - k,
    {
        k += 1;
    }
    k
}

fn sub_chars(s: &Vec<char>, a: usize, b: usize) -> (r: Vec<char>)
    requires
        a <= b <= s.len(),
    ensures
        r@ == s@.subrange(a as int, b as int),
{
    let mut r: Vec<char> = Vec::new();
    let mut k: usize = a;
    while k < b
        invariant
            a <= k <= b,
            b <= s.len(),
            r@ == s@.subrange(a as int, k as int),
        decreases b - k,
    {
        r.push(s[k]);
        assert(s@.subrange(a as int, k + 1) == s@.subrange(a as int, k as int).push(s@[k as int]));
        k += 1;
    }
    r
}

/// The value of the first `key` attribute of an image tag (see `attr_from`).
pub fn attr_value(attrs: &Vec<char>, key: &Vec<char>) -> (r: Option<Vec<char>>)
    ensures
        r matches Some(v) ==> attr_from(attrs@, key@, 0) == Some(v@),
        r is None ==> attr_from(attrs@, key@, 0) is None,
{
    let mut p: usize = 0;
    while p < attrs.len()
        invariant
            p <= attrs.len(),
            attr_from(attrs@, key@, 0) == attr_from(attrs@, key@, p as int),
        decreases attrs.len() - p,
    {
        if crate::text::occurs_at_exec(attrs, key, p) && key.len() < attrs.len() - p - 1 {
            let q = p + key.len();
            if (attrs[q] == '\'' || attrs[q] == '"') && attrs[q + 1] != '\'' && attrs[q + 1] != '"' {
                let e = quote_end_exec(attrs, q + 1);
                return Some(sub_chars(attrs, q + 1, e));
            }
        }
        p += 1;
    }
    None
}

/// The name shown for an image: its `name` attribute, or `image`.
pub open spec fn image_name(attrs: Seq<char>) -> Seq<char> {
    match attr_from(attrs, "name="@, 0) {
        Some(n) => n,
        None => "image"@,
    }
}

/// The markdown link an image tag with attributes `attrs` becomes, pointing
/// into the missions repository under the (lowercase) folder and mission;
/// `None` when the tag has no `image` attribute.
pub open spec fn image_link(attrs: Seq<char>, folder: Seq<char>, mission: Seq<char>) -> Option<
    Seq<char>,
> {
    match attr_from(attrs, "image="@, 0) {
        None => None,
        Some(path) => Some(
            "["@ + image_name(attrs)
                + "](https://raw.githubusercontent.com/SynixeContractors/Missions/main/"@ + folder
                + "/"@ + mission + "/"@ + path + ")"@,
        ),
    }
}

/// Where the image tag at the start of `s` closes: the first `>` after `<img `.
pub open spec fn img_close(s: Seq<char>) -> int {
    find_from(s, '>', 5)
}

/// `s` starts with an image tag `<img ATTRS/>`, ATTRS at least one
/// character and without `>`, as the pattern `<img ([^>]+?)\/>` matches.
pub open spec fn img_at_start(s: Seq<char>) -> bool {
    &&& crate::text::occurs_at(s, "<img "@, 0)
    &&& img_close(s) < s.len()
    &&& img_close(s) >= 7
    &&& s[img_close(s) - 1] == '/'
}

/// `r` with `a` in front of it, if there is an `r`.
pub open spec fn prepend(a: Seq<char>, r: Option<Seq<char>>) -> Option<Seq<char>> {
    match r {
        Some(t) => Some(a + t),
        None => None,
    }
}

/// A text with each image tag replaced by its link, scanning from the left;
/// `None` when an image tag has no `image` attribute.
pub open spec fn images_replaced(s: Seq<char>, folder: Seq<char>, mission: Seq<char>) -> Option<
    Seq<char>,
>
    decreases s.len(),
{
    if s.len() == 0 {
        Some(Seq::empty())
    } else if img_at_start(s) {
        let g = img_close(s);
        match image_link(s.subrange(5, g - 1), folder, mission) {
            None => None,
            Some(l) => prepend(l, images_replaced(s.skip(g + 1), folder, mission)),
        }
    } else {
        prepend(seq![s[0]], images_replaced(s.drop_first(), folder, mission))
    }
}

fn extend_chars(out: &mut Vec<char>, v: &Vec<char>)
    ensures
        final(out)@ == old(out)@ + v@,
{
    let ghost start = out@;
    let mut k: usize = 0;
    while k < v.len()
        invariant
            k <= v.len(),
            out@ == start + v@.subrange(0, k as int),
        decreases v.len() - k,
    {
        out.push(v[k]);
        assert(v@.subrange(0, k + 1) == v@.subrange(0, k as int).push(v@[k as int]));
        k += 1;
    }
    assert(v@.subrange(0, v.len() as int) == v@);
}

/// The link an image tag becomes (see `image_link`).
pub fn image_link_exec(attrs: &Vec<char>, folder: &Vec<char>, mission: &Vec<char>) -> (r: Option<
    Vec<char>,
>)
    ensures
        r matches Some(v) ==> image_link(attrs@, folder@, mission@) == Some(v@),
        r is None ==> image_link(attrs@, folder@, mission@) is None,
{
    let path = match attr_value(attrs, &chars_of("image=")) {
        Some(p) => p,
        None => return None,
    };
    let name = match attr_value(attrs, &chars_of("name=")) {
        Some(n) => n,
        None => chars_of("image"),
    };
    let mut link = chars_of("[");
    extend_chars(&mut link, &name);
    extend_chars(
        &mut link,
        &chars_of("](https://raw.githubusercontent.com/SynixeContractors/Missions/main/"),
    );
    extend_chars(&mut link, folder);
    extend_chars(&mut link, &chars_of("/"));
    extend_chars(&mut link, mission);
    extend_chars(&mut link, &chars_of("/"));
    extend_chars(&mut link, &path);
    extend_chars(&mut link, &chars_of(")"));
    Some(link)
}

/// A text with its image tags replaced by links (see `images_replaced`).
pub fn replace_images(s: &Vec<char>, folder: &Vec<char>, mission: &Vec<char>) -> (r: Option<
    Vec<char>,
>)
    ensures
        r matches Some(v) ==> images_replaced(s@, folder@, mission@) == Some(v@),
        r is None ==> images_replaced(s@, folder@, mission@) is None,
{
    let open = chars_of("<img ");
    let mut out: Vec<char> = Vec::new();
    let mut i: usize = 0;
    assert(s@.skip(0) == s@);
    while i < s.len()
        invariant
            i <= s.len(),
            open@ == "<img "@,
            images_replaced(s@, folder@, mission@) == prepend(
                out@,
                images_replaced(s@.skip(i as int), folder@, mission@),
            ),
        decreases s.len() - i,
    {
        let ghost rest = s@.skip(i as int);
        let ghost whole = images_replaced(s@, folder@, mission@);
        proof {
            reveal_strlit("<img ");
            assert(rest[0] == s@[i as int]);
        }
        let mut matched = false;
        if crate::text::occurs_at_exec(s, &open, i) {
            proof {
                assert(rest.subrange(0, 5) == s@.subrange(i as int, i + 5));
                assert(crate::text::occurs_at(rest, "<img "@, 0));
                lemma_find_from_shift(s@, '>', i + 5, i as int);
                lemma_find_from(s@, '>', i + 5);
            }
            let g = find_char_from(s, '>', i + 5);
            if g < s.len() && g - i >= 7 && s[g - 1] == '/' {
                proof {
                    assert(img_at_start(rest));
                    assert(img_close(rest) == g - i);
                }
                let attrs = sub_chars(s, i + 5, g - 1);
                proof {
                    assert(rest.subrange(5, g - i - 1) == attrs@);
                    assert(rest.skip(g - i + 1) == s@.skip(g + 1));
                }
                match image_link_exec(&attrs, folder, mission) {
                    None => {
                        return None;
                    },
                    Some(l) => {
                        let ghost before = out@;
                        extend_chars(&mut out, &l);
                        proof {
                            let tail = images_replaced(s@.skip(g + 1), folder@, mission@);
                            assert(images_replaced(rest, folder@, mission@) == prepend(l@, tail));
                            match tail {
                                Some(t) => {
                                    assert(before + (l@ + t) == (before + l@) + t);
                                },
                                None => {},
                            }
                        }
                        i = g + 1;
                        matched = true;
                    },
                }
            } else {
                proof {
                    if img_at_start(rest) {
                        assert(img_close(rest) == g - i);
                    }
                }
            }
        } else {
            proof {
                if img_at_start(rest) {
                    assert(rest.subrange(0, 5) == s@.subrange(i as int, i + 5));
                }
            }
        }
        if !matched {
            proof {
                assert(!img_at_start(rest));
                assert(rest.drop_first() == s@.skip(i + 1));
                let tail = images_replaced(s@.skip(i + 1), folder@, mission@);
                assert(images_replaced(rest, folder@, mission@) == prepend(seq![s@[i as int]], tail));
                match tail {
                    Some(t) => {
                        assert(out@ + (seq![s@[i as int]] + t) == out@.push(s@[i as int]) + t);
                    },
                    None => {},
                }
            }
            out.push(s[i]);
            i += 1;
        }
    }
    proof {
        assert(s@.skip(i as int) == Seq::<char>::empty());
        assert(out@ + Seq::<char>::empty() == out@);
    }
    Some(out)
}

/// The parts of a mission's briefing, each present or not.
pub struct BriefingParts {
    pub situation: Option<String>,
    pub mission: Option<String>,
    pub objectives: Option<String>,
}

/// The text of an optional string.
pub open spec fn opt_view(o: Option<String>) -> Option<Seq<char>> {
    match o {
        Some(s) => Some(s@),
        None => None,
    }
}

/// One part of the briefing text: a `## ` heading line with its title,
/// then the part's content; nothing when the part is missing.
pub open spec fn part_text(title: Seq<char>, content: Option<Seq<char>>) -> Seq<char> {
    match content {
        Some(c) => "## "@ + title + "\n"@ + c,
        None => Seq::empty(),
    }
}

/// The briefing text: situation, mission and objectives, in that order.
pub open spec fn briefing_source_spec(parts: BriefingParts) -> Seq<char> {
    part_text("Situation"@, opt_view(parts.situation)) + part_text(
        "Mission"@,
        opt_view(parts.mission),
    ) + part_text("Objectives"@, opt_view(parts.objectives))
}

fn push_part(text: &mut Vec<char>, title: &str, content: &Option<String>)
    ensures
        final(text)@ == old(text)@ + part_text(title@, opt_view(*content)),
{
    match content {
        Some(c) => {
            extend_chars(text, &chars_of("## "));
            extend_chars(text, &chars_of(title));
            extend_chars(text, &chars_of("\n"));
            extend_chars(text, &chars_of(c.as_str()));
        },
        None => {
            assert(old(text)@ + Seq::<char>::empty() == old(text)@);
        },
    }
}

/// The briefing text of a mission (see `briefing_source_spec`).
pub fn briefing_source(parts: &BriefingParts) -> (r: Vec<char>)
    ensures
        r@ == briefing_source_spec(*parts),
{
    let mut text: Vec<char> = Vec::new();
    push_part(&mut text, "Situation", &parts.situation);
    push_part(&mut text, "Mission", &parts.mission);
    push_part(&mut text, "Objectives", &parts.objectives);
    text
}

/// The messages a mission's briefing is posted as, in its thread: the
/// briefing text, its image tags turned into links into the missions
/// repository (folder and mission name in lower case), its other markup
/// tags removed or turned into headings, split into sections. `None` when
/// an image tag has no `image` attribute.
pub fn briefing_messages(parts: &BriefingParts, folder: &str, mission: &str) -> (r: Option<
    Vec<String>,
>)
    ensures
        images_replaced(
            briefing_source_spec(*parts),
            crate::text::lowercase(folder@),
            crate::text::lowercase(mission@),
        ) is None <==> r is None,
        r matches Some(v) ==> views(v@) == sections_spec(
            tags_replaced(
                images_replaced(
                    briefing_source_spec(*parts),
                    crate::text::lowercase(folder@),
                    crate::text::lowercase(mission@),
                )->0,
            ),
        ),
        first_title(*parts) is None ==> (r matches Some(v) && v@.len() == 0),
        r matches Some(v) ==> (first_title(*parts) matches Some(t) ==> v@.len() > 0 && ("## "@
            + t).is_prefix_of(v@[0]@)),
        r matches Some(v) ==> forall|i: int|
            0 <= i < v@.len() ==> "## "@.is_prefix_of(#[trigger] v@[i]@) && !ends_with_line_feed(
                v@[i]@,
            ),
{
    proof {
        law_briefing_headings(
            *parts,
            crate::text::lowercase(folder@),
            crate::text::lowercase(mission@),
        );
    }
    let text = briefing_source(parts);
    let f = chars_of(crate::text::to_lowercase(folder).as_str());
    let m = chars_of(crate::text::to_lowercase(mission).as_str());
    let linked = match replace_images(&text, &f, &m) {
        Some(l) => l,
        None => return None,
    };
    let tagged = replace_tags(&linked);
    let out = string_of(&tagged);
    let r = briefing_sections(out.as_str());
    proof {
        law_sections_trimmed(out@);
        assert(out@ == tags_replaced(
            images_replaced(
                briefing_source_spec(*parts),
                crate::text::lowercase(folder@),
                crate::text::lowercase(mission@),
            )->0,
        ));
        assert forall|i: int| 0 <= i < r@.len() implies "## "@.is_prefix_of(#[trigger] r@[i]@)
            && !ends_with_line_feed(r@[i]@) by {
            assert(r@[i]@ == views(r@)[i]);
            assert(views(r@)[i] == sections_spec(out@)[i]);
        }
    }
    Some(r)
}

/// An old-style briefing as it is posted: its line breaks turned into line
/// feeds and its font tags removed, one replacement after the other.
pub open spec fn old_briefing_cleaned(s: Seq<char>) -> Seq<char> {
    replace_spec(replace_spec(replace_spec(replace_spec(replace_spec(replace_spec(replace_spec(replace_spec(s, "            <br/>"@, "\n"@), "<font color='#D81717'>"@, ""@), "<font color='#1D69F6'>"@, ""@), "<font color='#993399'>"@, ""@), "<font color='#663300'>"@, ""@), "<font color='#139120'>"@, ""@), "</font color>"@, ""@), "</font>"@, ""@)
}

fn replace_lit(s: &Vec<char>, p: &str, r: &str) -> (out: Vec<char>)
    requires
        p@.len() > 0,
    ensures
        out@ == replace_spec(s@, p@, r@),
{
    replace_chars(s, &chars_of(p), &chars_of(r))
}

/// An old-style briefing as it is posted (see `old_briefing_cleaned`).
pub fn clean_old_briefing(content: &str) -> (r: String)
    ensures
        r@ == old_briefing_cleaned(content@),
{
    proof {
        reveal_strlit("            <br/>");
        reveal_strlit("<font color='#D81717'>");
        reveal_strlit("<font color='#1D69F6'>");
        reveal_strlit("<font color='#993399'>");
        reveal_strlit("<font color='#663300'>");
        reveal_strlit("<font color='#139120'>");
        reveal_strlit("</font color>");
        reveal_strlit("</font>");
    }
    let t = chars_of(content);
    let t = replace_lit(&t, "            <br/>", "\n");
    let t = replace_lit(&t, "<font color='#D81717'>", "");
    let t = replace_lit(&t, "<font color='#1D69F6'>", "");
    let t = replace_lit(&t, "<font color='#993399'>", "");
    let t = replace_lit(&t, "<font color='#663300'>", "");
    let t = replace_lit(&t, "<font color='#139120'>", "");
    let t = replace_lit(&t, "</font color>", "");
    let t = replace_lit(&t, "</font>", "");
    string_of(&t)
}

/// The description of a mission's calendar event: the old-style briefing,
/// else the mission part of the briefing, else a note that there is none.
pub open spec fn calendar_description_spec(old: Option<Seq<char>>, mission: Option<Seq<char>>) -> Seq<
    char,
> {
    match old {
        Some(o) => o,
        None => match mission {
            Some(m) => m,
            None => "No briefing available."@,
        },
    }
}

/// The description of a mission's calendar event (see `calendar_description_spec`).
pub fn calendar_description(old: &Option<String>, mission: &Option<String>) -> (r: String)
    ensures
        r@ == calendar_description_spec(opt_view(*old), opt_view(*mission)),
{
    match old {
        Some(o) => o.clone(),
        None => match mission {
            Some(m) => m.clone(),
            None => string_of(&chars_of("No briefing available.")),
        },
    }
}

/// How long a mission's calendar event lasts, in seconds (two and a half hours).
pub const EVENT_SECONDS: i64 = 9000;

/// When a mission's calendar event ends, as a unix timestamp; `None` where
/// that does not fit in an `i64`.
pub fn event_end(start: i64) -> (r: Option<i64>)
    ensures
        r matches Some(e) ==> e == start + EVENT_SECONDS,
        r is None <==> start + EVENT_SECONDS > i64::MAX,
{
    if start > i64::MAX - EVENT_SECONDS {
        None
    } else {
        Some(start + EVENT_SECONDS)
    }
}

/// A text ends with a line feed.
pub open spec fn ends_with_line_feed(s: Seq<char>) -> bool {
    s.len() > 0 && s.last() == '\n'
}

proof fn lemma_trim_end_newlines(s: Seq<char>)
    ensures
        !ends_with_line_feed(trim_end_newlines(s)),
    decreases s.len(),
{
    if s.len() > 0 && s.last() == '\n' {
        lemma_trim_end_newlines(s.drop_last());
    }
}

proof fn lemma_sections_state(lines: Seq<Seq<char>>)
    ensures
        forall|i: int|
            0 <= i < sections_state(lines).0.len() ==> !ends_with_line_feed(
                #[trigger] sections_state(lines).0[i],
            ),
    decreases lines.len(),
{
    if lines.len() > 0 {
        lemma_sections_state(lines.drop_last());
        let (secs, cur) = sections_state(lines.drop_last());
        lemma_trim_end_newlines(cur);
    }
}

/// No message of a briefing ends with a line feed.
pub proof fn law_sections_trimmed(text: Seq<char>)
    ensures
        forall|i: int|
            0 <= i < sections_spec(text).len() ==> !ends_with_line_feed(#[trigger] sections_spec(text)[i]),
{
    let lines = lines_spec(text);
    lemma_sections_state(lines);
    let (secs, cur) = sections_state(lines);
    lemma_trim_end_newlines(cur);
    assert forall|i: int| 0 <= i < sections_spec(text).len() implies !ends_with_line_feed(
        #[trigger] sections_spec(text)[i],
    ) by {
        if i < secs.len() {
            assert(sections_spec(text)[i] == secs[i]);
        }
    }
}


proof fn lemma_images_prefix(p: Seq<char>, r: Seq<char>, folder: Seq<char>, mission: Seq<char>)
    requires
        forall|i: int| 0 <= i < p.len() ==> #[trigger] p[i] != '<',
    ensures
        images_replaced(p + r, folder, mission) == prepend(p, images_replaced(r, folder, mission)),
    decreases p.len(),
{
    reveal_strlit("<img ");
    if p.len() == 0 {
        assert(p + r =~= r);
        match images_replaced(r, folder, mission) {
            Some(t) => assert(p + t =~= t),
            None => {},
        }
    } else {
        let s = p + r;
        assert(s[0] == p[0]);
        if crate::text::occurs_at(s, "<img "@, 0) {
            assert(s.subrange(0, 5)[0] == s[0]);
        }
        assert(!img_at_start(s));
        assert(s.drop_first() =~= p.drop_first() + r);
        assert forall|i: int| 0 <= i < p.drop_first().len() implies #[trigger] p.drop_first()[i] != '<' by {
            assert(p.drop_first()[i] == p[i + 1]);
        }
        lemma_images_prefix(p.drop_first(), r, folder, mission);
        match images_replaced(r, folder, mission) {
            Some(t) => assert(seq![s[0]] + (p.drop_first() + t) =~= p + t),
            None => {},
        }
    }
}

proof fn lemma_tags_prefix(p: Seq<char>, r: Seq<char>)
    requires
        forall|i: int| 0 <= i < p.len() ==> #[trigger] p[i] != '<',
    ensures
        tags_replaced(p + r) == p + tags_replaced(r),
    decreases p.len(),
{
    if p.len() == 0 {
        assert(p + r =~= r);
        assert(p + tags_replaced(r) =~= tags_replaced(r));
    } else {
        let s = p + r;
        assert(s[0] == p[0]);
        assert(s.drop_first() =~= p.drop_first() + r);
        assert forall|i: int| 0 <= i < p.drop_first().len() implies #[trigger] p.drop_first()[i] != '<' by {
            assert(p.drop_first()[i] == p[i + 1]);
        }
        lemma_tags_prefix(p.drop_first(), r);
        assert(seq![s[0]] + (p.drop_first() + tags_replaced(r)) =~= p + tags_replaced(r));
    }
}

proof fn lemma_first_line(h: Seq<char>, r: Seq<char>)
    requires
        forall|i: int| 0 <= i < h.len() ==> #[trigger] h[i] != '\n',
        h.len() > 0,
        h.last() != '\r',
    ensures
        lines_spec(h + seq!['\n'] + r).len() >= 1,
        lines_spec(h + seq!['\n'] + r)[0] == h,
{
    let s = h + seq!['\n'] + r;
    lemma_line_end(s);
    assert(s[h.len() as int] == '\n');
    let e = line_end(s);
    if e < h.len() {
        assert(s[e] == h[e]);
    }
    assert(e == h.len());
    assert(s.take(e) =~= h);
}

proof fn lemma_trim_keeps_prefix(p: Seq<char>, s: Seq<char>)
    requires
        p.is_prefix_of(s),
        p.len() > 0,
        p.last() != '\n',
    ensures
        p.is_prefix_of(trim_end_newlines(s)),
    decreases s.len(),
{
    if s.len() > 0 && s.last() == '\n' {
        if s.len() == p.len() {
            assert(s =~= p);
        }
        assert(s.drop_last().subrange(0, p.len() as int) =~= s.subrange(0, p.len() as int));
        lemma_trim_keeps_prefix(p, s.drop_last());
    }
}

proof fn lemma_extend_keeps_prefix(p: Seq<char>, cur: Seq<char>, l: Seq<char>)
    requires
        p.is_prefix_of(cur),
    ensures
        p.is_prefix_of(cur.push('\n') + l),
{
    assert((cur.push('\n') + l).subrange(0, p.len() as int) =~= cur.subrange(0, p.len() as int));
}

proof fn lemma_sections_heads(lines: Seq<Seq<char>>)
    requires
        lines.len() >= 1,
        "## "@.is_prefix_of(lines[0]),
        lines[0].last() != '\n',
    ensures
        "## "@.is_prefix_of(sections_state(lines).1),
        forall|i: int|
            0 <= i < sections_state(lines).0.len() ==> "## "@.is_prefix_of(
                #[trigger] sections_state(lines).0[i],
            ),
        sections_state(lines).0.len() == 0 ==> lines[0].is_prefix_of(sections_state(lines).1),
        sections_state(lines).0.len() > 0 ==> lines[0].is_prefix_of(sections_state(lines).0[0]),
    decreases lines.len(),
{
    reveal_strlit("## ");
    let head = "## "@;
    assert(head.len() == 3 && head.last() == ' ');
    if lines.len() == 1 {
        assert(lines.drop_last() =~= Seq::<Seq<char>>::empty());
        assert(lines.last() == lines[0]);
        assert(sections_state(lines.drop_last()) == (Seq::<Seq<char>>::empty(), Seq::<char>::empty()));
        assert(sections_state(lines) == (Seq::<Seq<char>>::empty(), lines[0]));
    } else {
        let prev = lines.drop_last();
        assert(prev[0] == lines[0]);
        lemma_sections_heads(prev);
        let (secs, cur) = sections_state(prev);
        let l = lines.last();
        assert(lines[0].len() >= 3);
        assert(cur.len() >= 3);
        if head.is_prefix_of(l) {
            assert(sections_state(lines) == (secs.push(trim_end_newlines(cur)), l));
            lemma_trim_keeps_prefix(head, cur);
            if secs.len() == 0 {
                lemma_trim_keeps_prefix(lines[0], cur);
            }
            if cur.len() > 0 {
                let ns = secs.push(trim_end_newlines(cur));
                assert forall|i: int| 0 <= i < ns.len() implies head.is_prefix_of(#[trigger] ns[i]) by {
                    if i < secs.len() {
                        assert(ns[i] == secs[i]);
                    }
                }
                if secs.len() > 0 {
                    assert(ns[0] == secs[0]);
                }
            }
        } else {
            assert(sections_state(lines) == (secs, cur.push('\n') + l));
            lemma_extend_keeps_prefix(head, cur, l);
            if secs.len() == 0 {
                lemma_extend_keeps_prefix(lines[0], cur, l);
            }
        }
    }
}

/// The title of the first part a briefing has, if it has any.
pub open spec fn first_title(parts: BriefingParts) -> Option<Seq<char>> {
    if parts.situation is Some {
        Some("Situation"@)
    } else if parts.mission is Some {
        Some("Mission"@)
    } else if parts.objectives is Some {
        Some("Objectives"@)
    } else {
        None
    }
}

proof fn lemma_heading_text(title: Seq<char>, rest: Seq<char>, folder: Seq<char>, mission: Seq<char>)
    requires
        forall|i: int| 0 <= i < title.len() ==> #[trigger] title[i] != '<' && title[i] != '\n',
        title.len() > 0,
        title.last() != '\r',
        title.last() != '\n',
        images_replaced("## "@ + title + "\n"@ + rest, folder, mission) is Some,
    ensures
        ({
            let out = sections_spec(
                tags_replaced(images_replaced("## "@ + title + "\n"@ + rest, folder, mission)->0),
            );
            &&& out.len() > 0
            &&& ("## "@ + title).is_prefix_of(out[0])
            &&& forall|i: int| 0 <= i < out.len() ==> "## "@.is_prefix_of(#[trigger] out[i])
        }),
{
    reveal_strlit("## ");
    reveal_strlit("\n");
    let h = "## "@ + title;
    let p = h + seq!['\n'];
    assert("\n"@ =~= seq!['\n']);
    assert("## "@ + title + "\n"@ + rest =~= p + rest);
    assert forall|i: int| 0 <= i < p.len() implies #[trigger] p[i] != '<' && p[i] != '\n' || i == h.len() by {
        if 3 <= i < h.len() {
            assert(p[i] == title[i - 3]);
        }
    }
    assert forall|i: int| 0 <= i < p.len() implies #[trigger] p[i] != '<' by {
        if 3 <= i < h.len() {
            assert(p[i] == title[i - 3]);
        }
    }
    lemma_images_prefix(p, rest, folder, mission);
    let t2 = images_replaced(rest, folder, mission)->0;
    let t = p + t2;
    lemma_tags_prefix(p, t2);
    let text = p + tags_replaced(t2);
    assert(text =~= h + seq!['\n'] + tags_replaced(t2));
    assert forall|i: int| 0 <= i < h.len() implies #[trigger] h[i] != '\n' by {
        if 3 <= i {
            assert(h[i] == title[i - 3]);
        }
    }
    assert(h.last() == title.last());
    lemma_first_line(h, tags_replaced(t2));
    let lines = lines_spec(text);
    assert("## "@.is_prefix_of(h)) by {
        assert(h.subrange(0, 3) =~= "## "@);
    }
    lemma_sections_heads(lines);
    let (secs, cur) = sections_state(lines);
    lemma_trim_keeps_prefix("## "@, cur);
    if secs.len() == 0 {
        lemma_trim_keeps_prefix(h, cur);
    }
    let out = sections_spec(text);
    assert(cur.len() > 0);
    assert(out == secs.push(trim_end_newlines(cur)));
    assert forall|i: int| 0 <= i < out.len() implies "## "@.is_prefix_of(#[trigger] out[i]) by {
        if i < secs.len() {
            assert(out[i] == secs[i]);
        }
    }
    if secs.len() > 0 {
        assert(out[0] == secs[0]);
    }
}

/// A briefing without any part is posted as no message. With a part, the
/// first message opens with the heading of the first part present
/// (Situation, Mission, Objectives, in that order), and every message
/// opens with a `## ` heading (where its image tags all have an image).
pub proof fn law_briefing_headings(parts: BriefingParts, folder: Seq<char>, mission: Seq<char>)
    ensures
        first_title(parts) is None ==> images_replaced(briefing_source_spec(parts), folder, mission)
            == Some(Seq::<char>::empty()) && sections_spec(tags_replaced(Seq::<char>::empty())).len() == 0,
        first_title(parts) matches Some(title) ==> (images_replaced(
            briefing_source_spec(parts),
            folder,
            mission,
        ) is Some ==> {
            let out = sections_spec(
                tags_replaced(images_replaced(briefing_source_spec(parts), folder, mission)->0),
            );
            &&& out.len() > 0
            &&& ("## "@ + title).is_prefix_of(out[0])
            &&& forall|i: int| 0 <= i < out.len() ==> "## "@.is_prefix_of(#[trigger] out[i])
        }),
{
    reveal_strlit("Situation");
    reveal_strlit("Mission");
    reveal_strlit("Objectives");
    let src = briefing_source_spec(parts);
    let sit = part_text("Situation"@, opt_view(parts.situation));
    let mis = part_text("Mission"@, opt_view(parts.mission));
    let obj = part_text("Objectives"@, opt_view(parts.objectives));
    assert forall|i: int| 0 <= i < "Situation"@.len() implies #[trigger] "Situation"@[i] != '<'
        && "Situation"@[i] != '\n' by {}
    assert forall|i: int| 0 <= i < "Mission"@.len() implies #[trigger] "Mission"@[i] != '<'
        && "Mission"@[i] != '\n' by {}
    assert forall|i: int| 0 <= i < "Objectives"@.len() implies #[trigger] "Objectives"@[i] != '<'
        && "Objectives"@[i] != '\n' by {}
    match first_title(parts) {
        None => {
            assert(src =~= Seq::<char>::empty());
            assert(tags_replaced(Seq::<char>::empty()) =~= Seq::<char>::empty());
            assert(lines_spec(Seq::<char>::empty()) =~= Seq::<Seq<char>>::empty());
        },
        Some(title) => {
            if images_replaced(src, folder, mission) is Some {
                if parts.situation is Some {
                    let c = opt_view(parts.situation)->0;
                    assert(src =~= "## "@ + title + "\n"@ + (c + mis + obj));
                    lemma_heading_text(title, c + mis + obj, folder, mission);
                } else if parts.mission is Some {
                    let c = opt_view(parts.mission)->0;
                    assert(src =~= "## "@ + title + "\n"@ + (c + obj));
                    lemma_heading_text(title, c + obj, folder, mission);
                } else {
                    let c = opt_view(parts.objectives)->0;
                    assert(src =~= "## "@ + title + "\n"@ + c);
                    lemma_heading_text(title, c, folder, mission);
                }
            }
        },
    }
}

} // verus!
