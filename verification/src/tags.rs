//! Channel tag parsing.
//!
//! A tag string is a comma-separated list of `key=value` segments, e.g.
//! `"a=1,b=2"`. A segment that does not contain exactly one `=` is silently
//! dropped; keys and values are trimmed of surrounding whitespace. The
//! empty string yields no tags. [`spec_parse_tags`] is the mathematical
//! statement of this policy, and [`parse_tags_csv`] the verified parser.

use vstd::prelude::*;

verus! {

/// Whether `u` is the scalar value of a Unicode whitespace character
/// (the set that the standard library's `str::trim` removes).
pub open spec fn is_space_code(u: int) -> bool {
    ||| u == 0x09
    ||| u == 0x0a
    ||| u == 0x0b
    ||| u == 0x0c
    ||| u == 0x0d
    ||| u == 0x20
    ||| u == 0x85
    ||| u == 0xa0
    ||| u == 0x1680
    ||| (0x2000 <= u && u <= 0x200a)
    ||| u == 0x2028
    ||| u == 0x2029
    ||| u == 0x202f
    ||| u == 0x205f
    ||| u == 0x3000
}

/// Whether `c` is whitespace.
pub open spec fn is_space(c: char) -> bool {
    is_space_code(c as int)
}

fn is_space_char(c: char) -> (r: bool)
    ensures
        r == is_space(c),
{
    let u = c as u32;
    u == 0x09 || u == 0x0a || u == 0x0b || u == 0x0c || u == 0x0d || u == 0x20 || u == 0x85
        || u == 0xa0 || u == 0x1680 || (0x2000 <= u && u <= 0x200a) || u == 0x2028 || u == 0x2029
        || u == 0x202f || u == 0x205f || u == 0x3000
}

/// The index of the first occurrence of `c` in `s`, or `-1` if `c` does
/// not occur.
pub open spec fn find_char(s: Seq<char>, c: char) -> int
    decreases s.len(),
{
    if s.len() == 0 {
        -1
    } else if s[0] == c {
        0
    } else if find_char(s.drop_first(), c) == -1 {
        -1
    } else {
        find_char(s.drop_first(), c) + 1
    }
}

/// `find_char` returns `-1` exactly when `c` is absent, and otherwise the
/// least index holding `c`.
pub proof fn lemma_find_char(s: Seq<char>, c: char)
    ensures
        find_char(s, c) == -1 ==> forall|i: int| 0 <= i < s.len() ==> s[i] != c,
        find_char(s, c) != -1 ==> 0 <= find_char(s, c) < s.len(),
        find_char(s, c) != -1 ==> s[find_char(s, c)] == c,
        find_char(s, c) != -1 ==> forall|i: int| 0 <= i < find_char(s, c) ==> s[i] != c,
    decreases s.len(),
{
    if s.len() == 0 {
    } else if s[0] == c {
    } else {
        lemma_find_char(s.drop_first(), c);
        let d = s.drop_first();
        if find_char(s, c) == -1 {
            assert forall|i: int| 0 <= i < s.len() implies s[i] != c by {
                if i > 0 {
                    assert(d[i - 1] == s[i]);
                }
            }
        } else {
            assert forall|i: int| 0 <= i < find_char(s, c) implies s[i] != c by {
                if i > 0 {
                    assert(d[i - 1] == s[i]);
                }
            }
        }
    }
}

/// If `c` first occurs at index `j`, then `find_char` returns `j`.
pub proof fn lemma_find_char_at(s: Seq<char>, c: char, j: int)
    requires
        0 <= j < s.len(),
        s[j] == c,
        forall|i: int| 0 <= i < j ==> s[i] != c,
    ensures
        find_char(s, c) == j,
    decreases s.len(),
{
    if j == 0 {
    } else {
        assert(forall|i: int|
            0 <= i < s.drop_first().len() ==> s.drop_first()[i] == s[i + 1]);
        lemma_find_char_at(s.drop_first(), c, j - 1);
    }
}

/// The number of whitespace characters at the front of `s`.
pub open spec fn leading_spaces(s: Seq<char>) -> int
    decreases s.len(),
{
    if s.len() == 0 || !is_space(s[0]) {
        0
    } else {
        1 + leading_spaces(s.drop_first())
    }
}

/// The number of whitespace characters at the end of `s`.
pub open spec fn trailing_spaces(s: Seq<char>) -> int
    decreases s.len(),
{
    if s.len() == 0 || !is_space(s[s.len() - 1]) {
        0
    } else {
        1 + trailing_spaces(s.drop_last())
    }
}

/// If exactly the first `k` characters of `s` are whitespace, then
/// `leading_spaces(s) == k`.
pub proof fn lemma_leading_spaces_at(s: Seq<char>, k: int)
    requires
        0 <= k <= s.len(),
        forall|i: int| 0 <= i < k ==> is_space(s[i]),
        k < s.len() ==> !is_space(s[k]),
    ensures
        leading_spaces(s) == k,
    decreases s.len(),
{
    if k == 0 {
    } else {
        assert(forall|i: int|
            0 <= i < s.drop_first().len() ==> s.drop_first()[i] == s[i + 1]);
        lemma_leading_spaces_at(s.drop_first(), k - 1);
    }
}

/// If exactly the last `k` characters of `s` are whitespace, then
/// `trailing_spaces(s) == k`.
pub proof fn lemma_trailing_spaces_at(s: Seq<char>, k: int)
    requires
        0 <= k <= s.len(),
        forall|i: int| s.len() - k <= i < s.len() ==> is_space(s[i]),
        k < s.len() ==> !is_space(s[s.len() - k - 1]),
    ensures
        trailing_spaces(s) == k,
    decreases s.len(),
{
    if k == 0 {
    } else {
        assert(forall|i: int|
            0 <= i < s.drop_last().len() ==> s.drop_last()[i] == s[i]);
        lemma_trailing_spaces_at(s.drop_last(), k - 1);
    }
}

/// `s` with surrounding whitespace removed.
pub open spec fn spec_trim(s: Seq<char>) -> Seq<char> {
    let rest = s.skip(leading_spaces(s));
    rest.take(rest.len() - trailing_spaces(rest))
}

/// One `key=value` segment: `None` unless the segment holds exactly one
/// `=`, otherwise the trimmed key and trimmed value.
pub open spec fn parse_segment(seg: Seq<char>) -> Option<(Seq<char>, Seq<char>)> {
    let j = find_char(seg, '=');
    if j == -1 {
        None
    } else if find_char(seg.skip(j + 1), '=') != -1 {
        None
    } else {
        Some((spec_trim(seg.take(j)), spec_trim(seg.skip(j + 1))))
    }
}

/// An accepted segment contributes one pair; a dropped one contributes none.
pub open spec fn tag_opt_seq(o: Option<(Seq<char>, Seq<char>)>) -> Seq<(Seq<char>, Seq<char>)> {
    match o {
        Some(p) => seq![p],
        None => Seq::empty(),
    }
}

/// The accepted `(key, value)` pairs of a tag string, in input order.
pub open spec fn spec_parse_tags(s: Seq<char>) -> Seq<(Seq<char>, Seq<char>)>
    decreases s.len(),
    via spec_parse_tags_decreases
{
    if s.len() == 0 {
        Seq::empty()
    } else if find_char(s, ',') == -1 {
        tag_opt_seq(parse_segment(s))
    } else {
        tag_opt_seq(parse_segment(s.take(find_char(s, ','))))
            + spec_parse_tags(s.skip(find_char(s, ',') + 1))
    }
}

#[via_fn]
proof fn spec_parse_tags_decreases(s: Seq<char>) {
    if s.len() != 0 && find_char(s, ',') != -1 {
        lemma_find_char(s, ',');
    }
}

fn chars_of(s: &str) -> (v: Vec<char>)
    ensures
        v@ == s@,
{
    let n = s.unicode_len();
    let mut v: Vec<char> = Vec::new();
    let mut i: usize = 0;
    while i < n
        invariant
            i <= n,
            n == s@.len(),
            v@ =~= s@.take(i as int),
        decreases n - i,
    {
        v.push(s.get_char(i));
        assert(v@ =~= s@.take(i + 1));
        i = i + 1;
    }
    assert(v@ =~= s@);
    v
}

fn find_in(chars: &Vec<char>, from: usize, to: usize, c: char) -> (r: Option<usize>)
    requires
        from <= to,
        to <= chars@.len(),
    ensures
        match r {
            Some(j) => from <= j < to
                && find_char(chars@.subrange(from as int, to as int), c) == j - from,
            None => find_char(chars@.subrange(from as int, to as int), c) == -1,
        },
{
    let ghost sub = chars@.subrange(from as int, to as int);
    let mut i: usize = from;
    while i < to
        invariant
            from <= i <= to,
            to <= chars@.len(),
            sub == chars@.subrange(from as int, to as int),
            forall|k: int| from <= k < i ==> chars@[k] != c,
        decreases to - i,
    {
        if chars[i] == c {
            proof {
                assert(sub[i - from] == c);
                lemma_find_char_at(sub, c, i - from);
            }
            return Some(i);
        }
        i = i + 1;
    }
    proof {
        lemma_find_char(sub, c);
        if find_char(sub, c) != -1 {
            assert(chars@[find_char(sub, c) + from] == c);
        }
    }
    None
}

fn trim_range(chars: &Vec<char>, lo: usize, hi: usize) -> (r: (usize, usize))
    requires
        lo <= hi,
        hi <= chars@.len(),
    ensures
        lo <= r.0 <= r.1 <= hi,
        spec_trim(chars@.subrange(lo as int, hi as int)) == chars@.subrange(
            r.0 as int,
            r.1 as int,
        ),
{
    let mut a: usize = lo;
    while a < hi && is_space_char(chars[a])
        invariant
            lo <= a <= hi,
            hi <= chars@.len(),
            forall|i: int| lo <= i < a ==> is_space(chars@[i]),
        decreases hi - a,
    {
        a = a + 1;
    }
    let mut b: usize = hi;
    while b > a && is_space_char(chars[b - 1])
        invariant
            a <= b <= hi,
            hi <= chars@.len(),
            forall|i: int| b <= i < hi ==> is_space(chars@[i]),
        decreases b,
    {
        b = b - 1;
    }
    proof {
        let sub = chars@.subrange(lo as int, hi as int);
        lemma_leading_spaces_at(sub, a - lo);
        let rest = sub.skip(a - lo);
        assert(rest =~= chars@.subrange(a as int, hi as int));
        lemma_trailing_spaces_at(rest, hi - b);
        assert(rest.take(b - a) =~= chars@.subrange(a as int, b as int));
    }
    (a, b)
}

fn segment_bounds(chars: &Vec<char>, a: usize, b: usize) -> (r: Option<(usize, usize, usize, usize)>)
    requires
        a <= b,
        b <= chars@.len(),
    ensures
        match r {
            Some(q) => a <= q.0 <= q.1 <= b && a <= q.2 <= q.3 <= b && parse_segment(
                chars@.subrange(a as int, b as int),
            ) == Some(
                (
                    chars@.subrange(q.0 as int, q.1 as int),
                    chars@.subrange(q.2 as int, q.3 as int),
                ),
            ),
            None => parse_segment(chars@.subrange(a as int, b as int)) is None,
        },
{
    let ghost seg = chars@.subrange(a as int, b as int);
    let eq = find_in(chars, a, b, '=');
    match eq {
        None => None,
        Some(j) => {
            proof {
                assert(seg.skip(j - a + 1) =~= chars@.subrange(j + 1, b as int));
            }
            let second = find_in(chars, j + 1, b, '=');
            match second {
                Some(_) => None,
                None => {
                    let k = trim_range(chars, a, j);
                    let v = trim_range(chars, j + 1, b);
                    proof {
                        assert(seg.take(j - a) =~= chars@.subrange(a as int, j as int));
                    }
                    Some((k.0, k.1, v.0, v.1))
                },
            }
        },
    }
}

/// The view of a parsed pair list: each pair as its character sequences.
pub open spec fn tag_pairs_view(v: Seq<(&str, &str)>) -> Seq<(Seq<char>, Seq<char>)> {
    v.map_values(|p: (&str, &str)| (p.0@, p.1@))
}

/// Parses a comma-separated `key=value` tag string. Malformed segments are
/// silently dropped; keys and values are trimmed; the empty string yields
/// no pairs.
pub fn parse_tags_csv<'a>(tags_csv: &'a str) -> (r: Vec<(&'a str, &'a str)>)
    ensures
        tag_pairs_view(r@) == spec_parse_tags(tags_csv@),
{
    let chars = chars_of(tags_csv);
    let n = chars.len();
    let mut out: Vec<(&'a str, &'a str)> = Vec::new();
    let mut pos: usize = 0;
    let mut done = false;
    if n == 0 {
        assert(tag_pairs_view(out@) =~= spec_parse_tags(tags_csv@));
        return out;
    }
    proof {
        assert(chars@.skip(0) =~= chars@);
        assert(tag_pairs_view(out@) =~= Seq::<(Seq<char>, Seq<char>)>::empty());
    }
    while !done
        invariant
            pos <= n,
            n == chars@.len(),
            chars@ == tags_csv@,
            !done ==> tag_pairs_view(out@) + spec_parse_tags(chars@.skip(pos as int))
                =~= spec_parse_tags(chars@),
            done ==> tag_pairs_view(out@) =~= spec_parse_tags(chars@),
        decreases (if done { 0int } else { 1int }), n - pos,
    {
        let ghost rest = chars@.skip(pos as int);
        let ghost out0 = out@;
        let comma = find_in(&chars, pos, n, ',');
        let seg_end = match comma {
            Some(j) => j,
            None => n,
        };
        proof {
            assert(rest =~= chars@.subrange(pos as int, n as int));
        }
        let sb = segment_bounds(&chars, pos, seg_end);
        if let Some(q) = sb {
            out.push((tags_csv.substring_char(q.0, q.1), tags_csv.substring_char(q.2, q.3)));
        }
        proof {
            let seg = chars@.subrange(pos as int, seg_end as int);
            assert(tag_pairs_view(out@) =~~= out0.map_values(|p: (&str, &str)| (p.0@, p.1@))
                + tag_opt_seq(parse_segment(seg)));
            match comma {
                Some(j) => {
                    assert(find_char(rest, ',') == j - pos);
                    assert(rest.take(j - pos) =~= seg);
                    assert(rest.skip(j - pos + 1) =~= chars@.skip(j + 1));
                    assert(spec_parse_tags(rest) == tag_opt_seq(parse_segment(seg))
                        + spec_parse_tags(chars@.skip(j + 1)));
                },
                None => {
                    assert(find_char(rest, ',') == -1);
                    if rest.len() == 0 {
                        assert(seg =~= rest);
                        assert(find_char(seg, '=') == -1);
                        assert(spec_parse_tags(rest) =~= tag_opt_seq(parse_segment(seg)));
                    } else {
                        assert(seg =~= rest);
                        assert(spec_parse_tags(rest) == tag_opt_seq(parse_segment(seg)));
                    }
                },
            }
        }
        match comma {
            Some(j) => {
                pos = j + 1;
            },
            None => {
                done = true;
            },
        }
    }
    out
}

} // verus!
