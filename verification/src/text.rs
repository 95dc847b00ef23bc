//! Text utilities the decoders are built on: ASCII-style whitespace
//! trimming, splitting file content into lines, and locating the first
//! line with non-whitespace content.

use vstd::prelude::*;

verus! {

/// Whitespace as the readers understand it: the six ASCII whitespace
/// characters.
pub open spec fn is_space(c: char) -> bool {
    c == ' ' || c == '\t' || c == '\n' || c == '\r' || c == '\u{b}' || c == '\u{c}'
}

/// `s` with every leading whitespace character removed.
pub open spec fn spec_trim_start(s: Seq<char>) -> Seq<char>
    decreases s.len(),
{
    if s.len() > 0 && is_space(s[0]) {
        spec_trim_start(s.skip(1))
    } else {
        s
    }
}

/// `s` with every trailing whitespace character removed.
pub open spec fn spec_trim_end(s: Seq<char>) -> Seq<char>
    decreases s.len(),
{
    if s.len() > 0 && is_space(s[s.len() - 1]) {
        spec_trim_end(s.take(s.len() - 1))
    } else {
        s
    }
}

/// `s` with leading and trailing whitespace removed.
pub open spec fn spec_trim(s: Seq<char>) -> Seq<char> {
    spec_trim_end(spec_trim_start(s))
}

proof fn lemma_trim_start_skip(s: Seq<char>, a: int)
    requires
        0 <= a <= s.len(),
        forall|j: int| 0 <= j < a ==> is_space(s[j]),
    ensures
        spec_trim_start(s) == spec_trim_start(s.skip(a)),
    decreases a,
{
    if a > 0 {
        lemma_trim_start_skip(s.skip(1), a - 1);
        assert(s.skip(1).skip(a - 1) =~= s.skip(a));
    } else {
        assert(s.skip(0) =~= s);
    }
}

proof fn lemma_trim_end_take(s: Seq<char>, b: int)
    requires
        0 <= b <= s.len(),
        forall|j: int| b <= j < s.len() ==> is_space(s[j]),
    ensures
        spec_trim_end(s) == spec_trim_end(s.take(b)),
    decreases s.len() - b,
{
    if b < s.len() {
        lemma_trim_end_take(s.take(s.len() - 1), b);
        assert(s.take(s.len() - 1).take(b) =~= s.take(b));
    } else {
        assert(s.take(s.len() as int) =~= s);
    }
}

/// Whether `c` counts as whitespace for trimming.
pub fn is_space_char(c: char) -> (r: bool)
    ensures
        r == is_space(c),
{
    c == ' ' || c == '\t' || c == '\n' || c == '\r' || c == '\u{b}' || c == '\u{c}'
}

/// The slice of `s` with leading and trailing whitespace removed.
pub fn trim_of<'a>(s: &'a str) -> (r: &'a str)
    ensures
        r@ == spec_trim(s@),
{
    let n = s.unicode_len();
    let mut a: usize = 0;
    while a < n && is_space_char(s.get_char(a))
        invariant
            a <= n,
            n == s@.len(),
            forall|j: int| 0 <= j < a ==> is_space(s@[j]),
        decreases n - a,
    {
        a += 1;
    }
    proof {
        lemma_trim_start_skip(s@, a as int);
        if a < n {
            assert(s@.skip(a as int)[0] == s@[a as int]);
        }
        assert(spec_trim_start(s@.skip(a as int)) == s@.skip(a as int));
    }
    let mut b: usize = n;
    while b > a && is_space_char(s.get_char(b - 1))
        invariant
            a <= b <= n,
            n == s@.len(),
            forall|j: int| b <= j < n ==> is_space(s@[j]),
        decreases b,
    {
        b -= 1;
    }
    proof {
        let tail = s@.skip(a as int);
        assert(forall|j: int| b - a <= j < tail.len() ==> is_space(#[trigger] tail[j]));
        lemma_trim_end_take(tail, b - a);
        let kept = tail.take(b - a);
        if b > a {
            assert(kept[kept.len() - 1] == s@[b - 1]);
        }
        assert(spec_trim_end(kept) == kept);
        assert(kept =~= s@.subrange(a as int, b as int));
    }
    s.substring_char(a, b)
}

/// The index of the first newline at or after `from`, or the length of `s`
/// when there is none.
pub open spec fn find_newline(s: Seq<char>, from: int) -> int
    decreases s.len() - from when 0 <= from <= s.len()
{
    if from >= s.len() {
        s.len() as int
    } else if s[from] == '\n' {
        from
    } else {
        find_newline(s, from + 1)
    }
}

proof fn lemma_find_newline(s: Seq<char>, from: int)
    requires
        0 <= from <= s.len(),
    ensures
        from <= find_newline(s, from) <= s.len(),
        find_newline(s, from) < s.len() ==> s[find_newline(s, from)] == '\n',
        forall|j: int| from <= j < find_newline(s, from) ==> s[j] != '\n',
    decreases s.len() - from,
{
    if from < s.len() && s[from] != '\n' {
        lemma_find_newline(s, from + 1);
    }
}

/// `l` with one trailing carriage return removed, as a line separator of
/// the form "\r\n" leaves one behind after splitting on the newline.
pub open spec fn strip_cr(l: Seq<char>) -> Seq<char> {
    if l.len() > 0 && l[l.len() - 1] == '\r' {
        l.take(l.len() - 1)
    } else {
        l
    }
}

/// The pieces of `s` from `from` on, split at every newline, each piece
/// with a trailing carriage return removed. There is always at least one
/// piece; a trailing newline contributes a final empty piece.
pub open spec fn split_pieces(s: Seq<char>, from: int) -> Seq<Seq<char>>
    decreases s.len() - from when 0 <= from <= s.len()
    via split_pieces_decreases
{
    let j = find_newline(s, from);
    let piece = strip_cr(s.subrange(from, j));
    if j == s.len() {
        seq![piece]
    } else {
        seq![piece] + split_pieces(s, j + 1)
    }
}

#[via_fn]
proof fn split_pieces_decreases(s: Seq<char>, from: int) {
    lemma_find_newline(s, from);
}

/// The lines of `s`: split at newlines, each line with one trailing
/// carriage return stripped, and without the empty final piece a trailing
/// newline would otherwise add.
pub open spec fn spec_split_lines(s: Seq<char>) -> Seq<Seq<char>> {
    let ps = split_pieces(s, 0);
    if ps[ps.len() - 1].len() == 0 {
        ps.take(ps.len() - 1)
    } else {
        ps
    }
}

/// Splits `s` into lines: one piece per newline-separated stretch, each
/// with a trailing carriage return removed; a trailing newline does not
/// produce a final empty line.
pub fn split_lines(s: &str) -> (r: Vec<String>)
    ensures
        r.deep_view() == spec_split_lines(s@),
{
    let n = s.unicode_len();
    let mut out: Vec<String> = Vec::new();
    let mut cur: usize = 0;
    let mut done: bool = false;
    while !done
        invariant
            n == s@.len(),
            !done ==> cur <= n,
            !done ==> split_pieces(s@, 0) == out.deep_view() + split_pieces(s@, cur as int),
            done ==> out.deep_view() == split_pieces(s@, 0),
        decreases n - cur + (if done { 0int } else { 1int }),
    {
        let ghost prev = out.deep_view();
        let mut j: usize = cur;
        while j < n && s.get_char(j) != '\n'
            invariant
                cur <= j <= n,
                n == s@.len(),
                find_newline(s@, cur as int) == find_newline(s@, j as int),
            decreases n - j,
        {
            proof {
                assert(find_newline(s@, j as int) == find_newline(s@, j + 1 as int));
            }
            j += 1;
        }
        proof {
            assert(find_newline(s@, j as int) == j);
            assert(find_newline(s@, cur as int) == j);
        }
        let pe = if j > cur && s.get_char(j - 1) == '\r' {
            j - 1
        } else {
            j
        };
        let piece = s.substring_char(cur, pe);
        out.push(String::from_str(piece));
        proof {
            let raw = s@.subrange(cur as int, j as int);
            if j > cur && s@[j - 1] == '\r' {
                assert(raw[raw.len() - 1] == s@[j - 1]);
                assert(raw.take(raw.len() - 1) =~= s@.subrange(cur as int, pe as int));
            }
            assert(strip_cr(raw) == s@.subrange(cur as int, pe as int));
            assert(out.deep_view() =~= prev.push(piece@));
            assert(prev.push(piece@) =~= prev + seq![strip_cr(raw)]);
        }
        if j == n {
            proof {
                assert(split_pieces(s@, cur as int) == seq![strip_cr(s@.subrange(cur as int, j as int))]);
                assert(out.deep_view() =~= split_pieces(s@, 0));
            }
            done = true;
        } else {
            proof {
                assert(split_pieces(s@, cur as int) == seq![strip_cr(s@.subrange(cur as int, j as int))]
                    + split_pieces(s@, j + 1 as int));
                assert(out.deep_view() + split_pieces(s@, j + 1 as int) =~= split_pieces(s@, 0));
            }
            cur = j + 1;
        }
    }
    proof {
        lemma_split_pieces_nonempty(s@, 0);
    }
    if out.len() > 0 {
        let last_is_empty = out[out.len() - 1].as_str().unicode_len() == 0;
        if last_is_empty {
            out.pop();
            proof {
                assert(out.deep_view() =~= split_pieces(s@, 0).take(split_pieces(s@, 0).len() - 1));
            }
        }
    }
    out
}

proof fn lemma_split_pieces_nonempty(s: Seq<char>, from: int)
    requires
        0 <= from <= s.len(),
    ensures
        split_pieces(s, from).len() >= 1,
    decreases s.len() - from,
{
}

/// The trimmed text of the first line whose trimmed text is non-empty,
/// scanning `lines` in order.
pub open spec fn first_trimmed(lines: Seq<Seq<char>>) -> Option<Seq<char>>
    decreases lines.len(),
{
    if lines.len() == 0 {
        None
    } else if spec_trim(lines[0]).len() > 0 {
        Some(spec_trim(lines[0]))
    } else {
        first_trimmed(lines.skip(1))
    }
}

/// The trimmed first non-empty line of a file's content, if any.
pub open spec fn spec_first_content_line(s: Seq<char>) -> Option<Seq<char>> {
    first_trimmed(spec_split_lines(s))
}

/// Finds the first line of `s` with non-whitespace content and returns it
/// trimmed; `None` when every line is blank.
pub fn first_content_line(s: &str) -> (r: Option<String>)
    ensures
        r.deep_view() == spec_first_content_line(s@),
{
    let lines = split_lines(s);
    let ghost lv = lines.deep_view();
    proof {
        assert(lv == spec_split_lines(s@));
        assert(lv.skip(0) =~= lv);
    }
    let mut i: usize = 0;
    while i < lines.len()
        invariant
            i <= lines.len(),
            lv == lines.deep_view(),
            lv == spec_split_lines(s@),
            first_trimmed(lv) == first_trimmed(lv.skip(i as int)),
        decreases lines.len() - i,
    {
        let t = trim_of(lines[i].as_str());
        proof {
            assert(lv.skip(i as int)[0] == lv[i as int]);
            assert(lv[i as int] == lines@[i as int]@);
        }
        if t.unicode_len() > 0 {
            proof {
                assert(first_trimmed(lv.skip(i as int)) == Some(t@));
            }
            return Some(String::from_str(t));
        }
        proof {
            assert(lv.skip(i as int).skip(1) =~= lv.skip(i as int + 1));
        }
        i += 1;
    }
    proof {
        assert(lv.skip(i as int) =~= Seq::<Seq<char>>::empty());
    }
    None
}

} // verus!
