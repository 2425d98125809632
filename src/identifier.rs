use vstd::prelude::*;
use vstd::string::*;

verus! {

/// The marker that precedes the path of a deep link.
pub open spec fn link_marker() -> Seq<char> {
    seq!['t', '.', 'm', 'e', '/']
}

/// Whether the link marker ends exactly at position `k` of `s`.
pub open spec fn marker_ends_at(s: Seq<char>, k: int) -> bool {
    5 <= k <= s.len() && s.subrange(k - 5, k) == link_marker()
}

/// The largest `j <= k` at which a link marker ends, or 0 when there is none.
pub open spec fn last_marker_end(s: Seq<char>, k: int) -> int
    decreases k,
{
    if k < 5 {
        0
    } else if marker_ends_at(s, k) {
        k
    } else {
        last_marker_end(s, k - 1)
    }
}

/// What is left of `s` after the last link marker (all of `s` when it has none).
pub open spec fn link_path(s: Seq<char>) -> Seq<char> {
    s.subrange(last_marker_end(s, s.len() as int), s.len() as int)
}

/// The first index `i >= from` with `t[i] == '/'`, or `t.len()` when there is none.
pub open spec fn next_slash(t: Seq<char>, from: int) -> int
    decreases t.len() - from,
{
    if from >= t.len() {
        t.len() as int
    } else if t[from] == '/' {
        from
    } else {
        next_slash(t, from + 1)
    }
}

/// A parsed channel identifier.
pub enum IdentifierView {
    Handle(Seq<char>),
    InviteHash(Seq<char>),
}

/// The parsing rule: `@name` is a handle; otherwise everything up to the last `t.me/`
/// is dropped, and the rest is a handle when it holds no `/`, else its second
/// `/`-separated segment is an invite hash.
pub open spec fn parse_identifier(s: Seq<char>) -> IdentifierView {
    if s.len() > 0 && s[0] == '@' {
        IdentifierView::Handle(s.drop_first())
    } else {
        let t = link_path(s);
        let p = next_slash(t, 0);
        if p == t.len() {
            IdentifierView::Handle(t)
        } else {
            IdentifierView::InviteHash(t.subrange(p + 1, next_slash(t, p + 1)))
        }
    }
}

/// A channel identifier as the operator wrote it: a public handle or an invite hash.
pub enum ResolvedJoinType {
    Username(String),
    Hash(String),
}

impl View for ResolvedJoinType {
    type V = IdentifierView;

    open spec fn view(&self) -> IdentifierView {
        match self {
            ResolvedJoinType::Username(u) => IdentifierView::Handle(u@),
            ResolvedJoinType::Hash(h) => IdentifierView::InviteHash(h@),
        }
    }
}

fn marker_ends_here(input: &str, k: usize) -> (r: bool)
    requires
        5 <= k <= input@.len(),
    ensures
        r == marker_ends_at(input@, k as int),
{
    let s = Ghost(input@);
    let hit = input.get_char(k - 5) == 't' && input.get_char(k - 4) == '.' && input.get_char(k
        - 3) == 'm' && input.get_char(k - 2) == 'e' && input.get_char(k - 1) == '/';
    proof {
        let m = s@.subrange(k - 5, k as int);
        if hit {
            assert(m =~= link_marker());
        } else if m == link_marker() {
            assert(m[0] == s@[k - 5] && m[1] == s@[k - 4] && m[2] == s@[k - 3]);
            assert(m[3] == s@[k - 2] && m[4] == s@[k - 1]);
        }
    }
    hit
}

fn find_slash(input: &str, start: usize, from: usize, n: usize) -> (r: usize)
    requires
        start <= from <= n <= input@.len(),
    ensures
        from <= r <= n,
        r == start + next_slash(input@.subrange(start as int, n as int), from - start),
{
    let ghost t = input@.subrange(start as int, n as int);
    let mut i: usize = from;
    while i < n
        invariant
            start <= from <= i <= n <= input@.len(),
            t == input@.subrange(start as int, n as int),
            next_slash(t, from - start) == next_slash(t, i - start),
        decreases n - i,
    {
        if input.get_char(i) == '/' {
            assert(t[i - start] == '/');
            return i;
        }
        assert(t[i - start] != '/');
        i = i + 1;
    }
    i
}

impl ResolvedJoinType {
    /// Parses a free-form channel identifier; this never fails, malformed input
    /// becomes a handle that the platform will not find.
    pub fn resolve(input: &str) -> (r: Self)
        ensures
            r@ == parse_identifier(input@),
    {
        let n = input.unicode_len();
        if n > 0 && input.get_char(0) == '@' {
            let rest = input.substring_char(1, n);
            assert(rest@ =~= input@.drop_first());
            return ResolvedJoinType::Username(String::from_str(rest));
        }
        let mut k: usize = n;
        while k >= 5 && !marker_ends_here(input, k)
            invariant
                k <= n == input@.len(),
                last_marker_end(input@, n as int) == last_marker_end(input@, k as int),
            decreases k,
        {
            k = k - 1;
        }
        let start: usize = if k >= 5 { k } else { 0 };
        let ghost t = input@.subrange(start as int, n as int);
        assert(t == link_path(input@));
        let p = find_slash(input, start, start, n);
        if p == n {
            ResolvedJoinType::Username(String::from_str(input.substring_char(start, n)))
        } else {
            let q = find_slash(input, start, p + 1, n);
            let hash = input.substring_char(p + 1, q);
            assert(hash@ =~= t.subrange(p + 1 - start, next_slash(t, p + 1 - start)));
            ResolvedJoinType::Hash(String::from_str(hash))
        }
    }
}

} // verus!
