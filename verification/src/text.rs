//! Scanning of request text, stated over sequences of characters.

use vstd::prelude::*;
use vstd::string::StrSliceExecFns;

verus! {

/// Whether `c` is white space as Unicode has it (`White_Space`).
pub open spec fn is_space(c: char) -> bool {
    let u = c as u32;
    ||| 0x09 <= u <= 0x0D
    ||| u == 0x20
    ||| u == 0x85
    ||| u == 0xA0
    ||| u == 0x1680
    ||| 0x2000 <= u <= 0x200A
    ||| u == 0x2028
    ||| u == 0x2029
    ||| u == 0x202F
    ||| u == 0x205F
    ||| u == 0x3000
}

/// Index of the first `c` in `s` at or after `from`; `s.len()` where there is none.
pub open spec fn next_index(s: Seq<char>, c: char, from: int) -> int
    decreases s.len() - from,
{
    if from < 0 || from >= s.len() {
        s.len() as int
    } else if s[from] == c {
        from
    } else {
        next_index(s, c, from + 1)
    }
}

/// The `n`-th of the pieces into which the occurrences of `c` cut `s[from..]`,
/// counted from 0; empty where there are `n` pieces or fewer.
pub open spec fn piece_from(s: Seq<char>, c: char, n: nat, from: int) -> Seq<char>
    decreases n,
{
    let k = next_index(s, c, from);
    if from < 0 || from > s.len() {
        Seq::empty()
    } else if n == 0 {
        s.subrange(from, k)
    } else if k >= s.len() {
        Seq::empty()
    } else {
        piece_from(s, c, (n - 1) as nat, k + 1)
    }
}

/// The `n`-th of the pieces into which the occurrences of `c` cut `s`, counted
/// from 0; empty where there are `n` pieces or fewer.
pub open spec fn piece(s: Seq<char>, c: char, n: nat) -> Seq<char> {
    piece_from(s, c, n, 0)
}

/// Index of the first character of `s` at or after `from` that is white space
/// (`space`) or is not (`!space`); `s.len()` where there is none.
pub open spec fn next_space(s: Seq<char>, space: bool, from: int) -> int
    decreases s.len() - from,
{
    if from < 0 || from >= s.len() {
        s.len() as int
    } else if is_space(s[from]) == space {
        from
    } else {
        next_space(s, space, from + 1)
    }
}

/// The first run of characters of `s` that holds no white space and is as long
/// as can be; empty where `s` is all white space.
pub open spec fn first_token(s: Seq<char>) -> Seq<char> {
    let a = next_space(s, false, 0);
    let b = next_space(s, true, a);
    s.subrange(a, b)
}

/// Whether `pat` stands in `s` at index `at`.
pub open spec fn matches_at(s: Seq<char>, pat: Seq<char>, at: int) -> bool {
    &&& 0 <= at
    &&& at + pat.len() <= s.len()
    &&& s.subrange(at, at + pat.len()) == pat
}

/// Where the last piece of `s` starts when `s` is cut at the occurrences of
/// `pat`, found from left to right without overlap. `from` is the start of
/// the piece being scanned and `at` the position of the scan.
pub open spec fn last_piece_start(s: Seq<char>, pat: Seq<char>, from: int, at: int) -> int
    decreases s.len() - at,
{
    if pat.len() == 0 || at < 0 || at + pat.len() > s.len() {
        from
    } else if matches_at(s, pat, at) {
        last_piece_start(s, pat, at + pat.len(), at + pat.len())
    } else {
        last_piece_start(s, pat, from, at + 1)
    }
}

/// The last of the pieces into which the occurrences of `pat` cut `s`; all of
/// `s` where `pat` does not occur, and empty where `pat` is empty.
pub open spec fn last_piece(s: Seq<char>, pat: Seq<char>) -> Seq<char> {
    if pat.len() == 0 {
        Seq::empty()
    } else {
        s.subrange(last_piece_start(s, pat, 0, 0), s.len() as int)
    }
}

/// The characters of `s`, in order.
pub fn chars_of(s: &str) -> (v: Vec<char>)
    ensures
        v@ == s@,
{
    let mut v: Vec<char> = Vec::new();
    for c in it: s.chars()
        invariant
            v@ == it.seq().take(it.index() as int),
            it.seq() == s@,
    {
        v.push(c);
    }
    v
}

/// Whether `c` is white space.
pub fn is_whitespace(c: char) -> (b: bool)
    ensures
        b == is_space(c),
{
    let u: u32 = c as u32;
    (0x09 <= u && u <= 0x0D) || u == 0x20 || u == 0x85 || u == 0xA0 || u == 0x1680 || (0x2000 <= u
        && u <= 0x200A) || u == 0x2028 || u == 0x2029 || u == 0x202F || u == 0x205F || u == 0x3000
}

/// Index of the first `c` in `v` at or after `from`.
pub fn find_char(v: &Vec<char>, c: char, from: usize) -> (k: usize)
    ensures
        k == next_index(v@, c, from as int),
        k <= v.len(),
        from <= v.len() ==> from <= k,
{
    if from >= v.len() {
        return v.len();
    }
    let mut i: usize = from;
    while i < v.len() && v[i] != c
        invariant
            from <= i <= v.len(),
            next_index(v@, c, from as int) == next_index(v@, c, i as int),
        decreases v.len() - i,
    {
        i += 1;
    }
    i
}

/// Index of the first character of `v` at or after `from` that is white space
/// (`space`) or is not (`!space`).
pub fn find_space(v: &Vec<char>, space: bool, from: usize) -> (k: usize)
    ensures
        k == next_space(v@, space, from as int),
        k <= v.len(),
        from <= v.len() ==> from <= k,
{
    if from >= v.len() {
        return v.len();
    }
    let mut i: usize = from;
    while i < v.len() && is_whitespace(v[i]) != space
        invariant
            from <= i <= v.len(),
            next_space(v@, space, from as int) == next_space(v@, space, i as int),
        decreases v.len() - i,
    {
        i += 1;
    }
    i
}

/// Whether `pat` stands in `v` at index `at`.
pub fn has_at(v: &Vec<char>, pat: &Vec<char>, at: usize) -> (b: bool)
    ensures
        b == matches_at(v@, pat@, at as int),
{
    if pat.len() > v.len() || at > v.len() - pat.len() {
        return false;
    }
    let mut i: usize = 0;
    while i < pat.len()
        invariant
            at + pat.len() <= v.len(),
            i <= pat.len(),
            forall|j: int| 0 <= j < i ==> v@[at + j] == pat@[j],
        decreases pat.len() - i,
    {
        if v[at + i] != pat[i] {
            proof {
                let w = v@.subrange(at as int, at + pat.len());
                assert(w[i as int] != pat@[i as int]);
            }
            return false;
        }
        i += 1;
    }
    assert(v@.subrange(at as int, at + pat.len()) =~= pat@);
    true
}

/// Whether `s` begins with `pat`.
pub fn starts_with(s: &str, pat: &str) -> (b: bool)
    ensures
        b == pat@.is_prefix_of(s@),
{
    let v = chars_of(s);
    let p = chars_of(pat);
    has_at(&v, &p, 0)
}

/// The `n`-th of the pieces into which the occurrences of `c` cut `s`, counted
/// from 0: what the `n`-th item of `s.split(c)` is, and empty where there is
/// no such item.
pub fn nth_piece(s: &str, c: char, n: usize) -> (p: &str)
    ensures
        p@ == piece(s@, c, n as nat),
{
    let v = chars_of(s);
    let mut from: usize = 0;
    let mut left: usize = n;
    while left > 0
        invariant
            v@ == s@,
            from <= v.len(),
            piece(s@, c, n as nat) == piece_from(s@, c, left as nat, from as int),
        decreases left,
    {
        let k = find_char(&v, c, from);
        if k >= v.len() {
            return s.substring_char(0, 0);
        }
        from = k + 1;
        left -= 1;
    }
    let k = find_char(&v, c, from);
    s.substring_char(from, k)
}

/// The first run of characters of `s` without white space: what the first
/// item of `s.split_whitespace()` is, and empty where there is none.
pub fn leading_token(s: &str) -> (t: &str)
    ensures
        t@ == first_token(s@),
{
    let v = chars_of(s);
    let a = find_space(&v, false, 0);
    let b = find_space(&v, true, a);
    s.substring_char(a, b)
}

/// The last of the pieces into which the occurrences of `pat` cut `s`: what
/// the last item of `s.split(pat)` is.
pub fn final_piece<'a>(s: &'a str, pat: &str) -> (p: &'a str)
    ensures
        p@ == last_piece(s@, pat@),
{
    let v = chars_of(s);
    let w = chars_of(pat);
    if w.len() == 0 {
        return s.substring_char(0, 0);
    }
    let mut from: usize = 0;
    let mut at: usize = 0;
    while w.len() <= v.len() && at <= v.len() - w.len()
        invariant
            v@ == s@,
            w@ == pat@,
            w.len() > 0,
            from <= at,
            from <= v.len(),
            last_piece_start(s@, pat@, 0, 0) == last_piece_start(s@, pat@, from as int, at as int),
        decreases v.len() - at,
    {
        if has_at(&v, &w, at) {
            at = at + w.len();
            from = at;
        } else {
            at += 1;
        }
    }
    s.substring_char(from, v.len())
}

/// `next_index` is `k` where no `c` stands from `from` up to `k` and one
/// stands at `k`, or `s` ends there.
pub proof fn next_index_at(s: Seq<char>, c: char, from: int, k: int)
    requires
        0 <= from <= k <= s.len(),
        forall|j: int| from <= j < k ==> #[trigger] s[j] != c,
        k == s.len() || s[k] == c,
    ensures
        next_index(s, c, from) == k,
    decreases k - from,
{
    if from < k {
        assert(s[from] != c);
        next_index_at(s, c, from + 1, k);
    }
}

/// `next_index` does not stop before `k` where no `c` stands from `from` up
/// to `k`.
pub proof fn next_index_from(s: Seq<char>, c: char, from: int, k: int)
    requires
        0 <= from <= k <= s.len(),
        forall|j: int| from <= j < k ==> #[trigger] s[j] != c,
    ensures
        k <= next_index(s, c, from) <= s.len(),
        next_index(s, c, from) == next_index(s, c, k),
    decreases k - from,
{
    if from < k {
        assert(s[from] != c);
        next_index_from(s, c, from + 1, k);
    } else {
        next_index_bounds(s, c, k);
    }
}

/// `next_index` stays between `from` and the end of `s`.
pub proof fn next_index_bounds(s: Seq<char>, c: char, from: int)
    requires
        0 <= from <= s.len(),
    ensures
        from <= next_index(s, c, from) <= s.len(),
    decreases s.len() - from,
{
    if from < s.len() && s[from] != c {
        next_index_bounds(s, c, from + 1);
    }
}

/// `next_space` is `k` where from `from` up to `k` every character is on
/// the other side, and the one at `k` is on the side asked for, or `s` ends
/// there.
pub proof fn next_space_at(s: Seq<char>, space: bool, from: int, k: int)
    requires
        0 <= from <= k <= s.len(),
        forall|j: int| from <= j < k ==> is_space(#[trigger] s[j]) != space,
        k == s.len() || is_space(s[k]) == space,
    ensures
        next_space(s, space, from) == k,
    decreases k - from,
{
    if from < k {
        assert(is_space(s[from]) != space);
        next_space_at(s, space, from + 1, k);
    }
}

/// Where `pat` stands nowhere from `at` on, the piece that is being
/// scanned is the last.
pub proof fn last_piece_start_at_end(s: Seq<char>, pat: Seq<char>, from: int, at: int)
    requires
        0 <= at,
        forall|i: int| at <= i ==> !matches_at(s, pat, i),
    ensures
        last_piece_start(s, pat, from, at) == from,
    decreases s.len() - at,
{
    if pat.len() > 0 && at + pat.len() <= s.len() {
        last_piece_start_at_end(s, pat, from, at + 1);
    }
}

/// Where `pat` stands at `k` and nowhere from `at` up to `k`, the scan goes
/// on behind that occurrence, with a new piece.
pub proof fn last_piece_start_skips(s: Seq<char>, pat: Seq<char>, from: int, at: int, k: int)
    requires
        0 <= at <= k,
        pat.len() > 0,
        matches_at(s, pat, k),
        forall|i: int| at <= i < k ==> !matches_at(s, pat, i),
    ensures
        last_piece_start(s, pat, from, at) == last_piece_start(
            s,
            pat,
            k + pat.len(),
            k + pat.len(),
        ),
    decreases k - at,
{
    if at < k {
        last_piece_start_skips(s, pat, from, at + 1, k);
    }
}

} // verus!
