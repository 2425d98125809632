use vstd::prelude::*;
use vstd::string::*;

verus! {

/// The characters with the Unicode `White_Space` property.
pub open spec fn is_white_space(c: char) -> bool {
    let u = c as u32;
    (0x9 <= u <= 0xd) || u == 0x20 || u == 0x85 || u == 0xa0 || u == 0x1680 || (0x2000 <= u
        <= 0x200a) || u == 0x2028 || u == 0x2029 || u == 0x202f || u == 0x205f || u == 0x3000
}

/// `s` without its leading white space.
pub open spec fn trim_start(s: Seq<char>) -> Seq<char>
    decreases s.len(),
{
    if s.len() > 0 && is_white_space(s[0]) {
        trim_start(s.drop_first())
    } else {
        s
    }
}

/// `s` without its trailing white space.
pub open spec fn trim_end(s: Seq<char>) -> Seq<char>
    decreases s.len(),
{
    if s.len() > 0 && is_white_space(s.last()) {
        trim_end(s.drop_last())
    } else {
        s
    }
}

/// A line without leading and trailing white space.
pub open spec fn trimmed(s: Seq<char>) -> Seq<char> {
    trim_end(trim_start(s))
}

/// Relies on str::trim: the line with leading and trailing characters of the
/// Unicode `White_Space` property removed.
#[verifier::external_body]
fn trim_line(s: &str) -> (r: String)
    ensures
        r@ == trimmed(s@),
{
    s.trim().to_string()
}

/// `s` cut at each `'\n'`; a text without one is a single line.
pub open spec fn split_lines(s: Seq<char>) -> Seq<Seq<char>>
    decreases s.len(),
{
    if s.len() == 0 {
        seq![Seq::empty()]
    } else {
        let r = split_lines(s.drop_last());
        if s.last() == '\n' {
            r.push(Seq::empty())
        } else {
            r.update(r.len() - 1, r.last().push(s.last()))
        }
    }
}

/// The trimmed lines that are not blank, in order.
pub open spec fn nonblank(lines: Seq<Seq<char>>) -> Seq<Seq<char>>
    decreases lines.len(),
{
    if lines.len() == 0 {
        Seq::empty()
    } else {
        let r = nonblank(lines.drop_last());
        let t = trimmed(lines.last());
        if t.len() == 0 {
            r
        } else {
            r.push(t)
        }
    }
}

/// The identifiers that a newline-separated list holds.
pub open spec fn identifier_list(text: Seq<char>) -> Seq<Seq<char>> {
    nonblank(split_lines(text))
}

proof fn lemma_split_lines_nonempty(s: Seq<char>)
    ensures
        split_lines(s).len() >= 1,
    decreases s.len(),
{
    if s.len() > 0 {
        lemma_split_lines_nonempty(s.drop_last());
    }
}

/// Reads a newline-separated list of identifiers: each line trimmed, blank lines dropped.
pub fn parse_identifier_list(text: &str) -> (r: Vec<String>)
    ensures
        r@.map_values(|s: String| s@) == identifier_list(text@),
{
    let n = text.unicode_len();
    let mut out: Vec<String> = Vec::new();
    let mut start: usize = 0;
    let mut i: usize = 0;
    proof {
        lemma_split_lines_nonempty(text@.take(0));
        assert(text@.take(0) =~= Seq::<char>::empty());
    }
    while i < n
        invariant
            n == text@.len(),
            start <= i <= n,
            split_lines(text@.take(i as int)).len() >= 1,
            split_lines(text@.take(i as int)).last() == text@.subrange(start as int, i as int),
            out@.map_values(|s: String| s@) == nonblank(
                split_lines(text@.take(i as int)).drop_last(),
            ),
        decreases n - i,
    {
        let ghost before = split_lines(text@.take(i as int));
        let ghost after = split_lines(text@.take(i + 1));
        assert(text@.take(i + 1).drop_last() =~= text@.take(i as int));
        assert(text@.take(i + 1).last() == text@[i as int]);
        if text.get_char(i) == '\n' {
            let line = trim_line(text.substring_char(start, i));
            assert(after.drop_last() =~= before);
            assert(nonblank(after.drop_last()).len() == nonblank(before).len());
            if line.unicode_len() > 0 {
                out.push(line);
            }
            assert(out@.map_values(|s: String| s@) =~= nonblank(after.drop_last()));
            start = i + 1;
            assert(after.last() =~= text@.subrange(start as int, i + 1));
        } else {
            assert(after.drop_last() =~= before.drop_last());
            assert(after.last() =~= text@.subrange(start as int, i + 1));
        }
        i = i + 1;
    }
    assert(text@.take(n as int) =~= text@);
    let ghost lines = split_lines(text@);
    let last = trim_line(text.substring_char(start, n));
    assert(lines.drop_last().push(lines.last()) =~= lines);
    if last.unicode_len() > 0 {
        out.push(last);
    }
    assert(out@.map_values(|s: String| s@) =~= identifier_list(text@));
    out
}

} // verus!
