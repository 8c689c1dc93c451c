//! Text helpers: building `String`s from characters and decimal or
//! hexadecimal renderings of integers.

use vstd::prelude::*;

verus! {

/// The views of a sequence of strings.
pub open spec fn views(v: Seq<String>) -> Seq<Seq<char>> {
    v.map_values(|s: String| s@)
}

/// The character of a decimal digit.
pub open spec fn digit_char(d: nat) -> char {
    if d == 0 { '0' }
    else if d == 1 { '1' }
    else if d == 2 { '2' }
    else if d == 3 { '3' }
    else if d == 4 { '4' }
    else if d == 5 { '5' }
    else if d == 6 { '6' }
    else if d == 7 { '7' }
    else if d == 8 { '8' }
    else { '9' }
}

/// Decimal rendering of a natural number, without leading zeros.
pub open spec fn dec(n: nat) -> Seq<char>
    decreases n,
{
    if n < 10 {
        seq![digit_char(n)]
    } else {
        dec(n / 10).push(digit_char(n % 10))
    }
}

/// Appends one character to a string.
///
/// Wraps `String::push`; the claim is the one its documentation makes:
/// the character is appended at the end.
#[verifier::external_body]
pub(crate) fn push_char(s: &mut String, c: char)
    ensures
        final(s)@ == old(s)@.push(c),
{
    s.push(c);
}

/// Appends a string slice to a string.
pub fn push_str(s: &mut String, t: &str)
    ensures
        final(s)@ == old(s)@ + t@,
{
    s.append(t);
}

/// Builds a string holding the given characters in order.
pub fn string_from_chars(cs: &Vec<char>) -> (out: String)
    ensures
        out@ == cs@,
{
    let mut out = String::new();
    let mut i: usize = 0;
    while i < cs.len()
        invariant
            i <= cs.len(),
            out@ == cs@.take(i as int),
        decreases cs.len() - i,
    {
        push_char(&mut out, cs[i]);
        assert(cs@.take(i as int + 1) =~= cs@.take(i as int).push(cs@[i as int]));
        i = i + 1;
    }
    assert(cs@.take(cs.len() as int) =~= cs@);
    out
}

fn exec_digit_char(d: u64) -> (c: char)
    requires
        d < 10,
    ensures
        c == digit_char(d as nat),
{
    if d == 0 { '0' }
    else if d == 1 { '1' }
    else if d == 2 { '2' }
    else if d == 3 { '3' }
    else if d == 4 { '4' }
    else if d == 5 { '5' }
    else if d == 6 { '6' }
    else if d == 7 { '7' }
    else if d == 8 { '8' }
    else { '9' }
}

fn push_dec(n: u64, out: &mut Vec<char>)
    ensures
        final(out)@ == old(out)@ + dec(n as nat),
    decreases n,
{
    if n >= 10 {
        push_dec(n / 10, out);
    }
    out.push(exec_digit_char(n % 10));
    proof {
        if n >= 10 {
            assert(dec(n as nat) == dec((n / 10) as nat).push(digit_char((n % 10) as nat)));
        }
    }
}

/// Decimal rendering of `n`, as `n.to_string()` gives it.
pub fn u64_to_dec(n: u64) -> (out: String)
    ensures
        out@ == dec(n as nat),
{
    let mut cs: Vec<char> = Vec::new();
    push_dec(n, &mut cs);
    assert(cs@ =~= dec(n as nat));
    string_from_chars(&cs)
}

/// Whether two string slices are equal.
///
/// Wraps `==` on `str`; the claim is std's: the slices hold the same characters.
#[verifier::external_body]
pub(crate) fn str_eq(a: &str, b: &str) -> (out: bool)
    ensures
        out == (a@ == b@),
{
    a == b
}

/// The characters of a string slice.
pub fn str_chars(s: &str) -> (out: Vec<char>)
    ensures
        out@ == s@,
{
    let mut out: Vec<char> = Vec::new();
    for c in it: s.chars()
        invariant
            out@ == it.seq().take(it.index() as int),
    {
        out.push(c);
    }
    out
}

/// Whether `s` begins with `p`.
pub open spec fn seq_starts_with(s: Seq<char>, p: Seq<char>) -> bool {
    p.len() <= s.len() && s.take(p.len() as int) == p
}

/// Whether `p` occurs in `s` as a contiguous run.
pub open spec fn seq_contains_run(s: Seq<char>, p: Seq<char>) -> bool {
    exists|k: int| 0 <= k && k + p.len() <= s.len() && #[trigger] s.subrange(k, k + p.len()) == p
}

fn chars_match_at(s: &Vec<char>, p: &Vec<char>, k: usize) -> (out: bool)
    requires
        k + p.len() <= s.len(),
    ensures
        out == (s@.subrange(k as int, k + p.len()) == p@),
{
    let mut j: usize = 0;
    while j < p.len()
        invariant
            j <= p.len(),
            k + p.len() <= s.len(),
            forall|m: int| 0 <= m < j ==> s@[k + m] == p@[m],
        decreases p.len() - j,
    {
        if s[k + j] != p[j] {
            assert(s@.subrange(k as int, k + p.len())[j as int] != p@[j as int]);
            return false;
        }
        j = j + 1;
    }
    assert(s@.subrange(k as int, k + p.len()) =~= p@);
    true
}

/// Whether `s` begins with `p`, as `str::starts_with` answers it.
pub fn starts_with(s: &str, p: &str) -> (out: bool)
    ensures
        out == seq_starts_with(s@, p@),
{
    let sc = str_chars(s);
    let pc = str_chars(p);
    if pc.len() > sc.len() {
        return false;
    }
    let r = chars_match_at(&sc, &pc, 0);
    assert(sc@.take(pc.len() as int) =~= sc@.subrange(0, pc.len() as int));
    r
}

/// Whether `p` occurs in `s`, as `str::contains` answers it.
pub fn contains_run(s: &str, p: &str) -> (out: bool)
    ensures
        out == seq_contains_run(s@, p@),
{
    let sc = str_chars(s);
    let pc = str_chars(p);
    if pc.len() > sc.len() {
        return false;
    }
    if pc.len() == 0 {
        assert(s@.subrange(0, 0 + p@.len() as int) =~= p@);
        return true;
    }
    let last: usize = sc.len() - pc.len();
    let mut k: usize = 0;
    while k <= last
        invariant
            pc.len() <= sc.len(),
            0 < pc.len(),
            sc@ == s@,
            pc@ == p@,
            last == sc.len() - pc.len(),
            k <= last + 1,
            forall|m: int| 0 <= m < k ==> #[trigger] sc@.subrange(m, m + pc.len()) != pc@,
        decreases last + 1 - k,
    {
        if chars_match_at(&sc, &pc, k) {
            assert(s@.subrange(k as int, k + p@.len()) == p@);
            return true;
        }
        k = k + 1;
    }
    false
}

/// A string holding a copy of the slice.
pub fn to_string(s: &str) -> (out: String)
    ensures
        out@ == s@,
{
    String::from_str(s)
}

/// A copy of a slice of strings.
pub fn clone_strings(v: &[String]) -> (out: Vec<String>)
    ensures
        views(out@) == views(v@),
        out@.len() == v@.len(),
{
    let mut out: Vec<String> = Vec::new();
    let mut i: usize = 0;
    while i < v.len()
        invariant
            i <= v.len(),
            views(out@) == views(v@).take(i as int),
            out@.len() == i,
        decreases v.len() - i,
    {
        out.push(v[i].clone());
        assert(views(out@) =~= views(v@).take(i as int + 1));
        i = i + 1;
    }
    assert(views(v@).take(v.len() as int) =~= views(v@));
    out
}

/// Appends a copy of the literal `s` to `v`.
pub fn push_lit(v: &mut Vec<String>, s: &str)
    ensures
        views(final(v)@) == views(old(v)@).push(s@),
{
    let ghost before = views(v@);
    v.push(String::from_str(s));
    assert(views(v@) =~= before.push(s@));
}

/// Appends a string to `v`.
pub fn push_string(v: &mut Vec<String>, s: String)
    ensures
        views(final(v)@) == views(old(v)@).push(s@),
{
    let ghost before = views(v@);
    let ghost sv = s@;
    v.push(s);
    assert(views(v@) =~= before.push(sv));
}

/// Appends copies of `src[lo..hi]` to `dst`.
pub fn extend_range(dst: &mut Vec<String>, src: &[String], lo: usize, hi: usize)
    requires
        lo <= hi <= src@.len(),
    ensures
        views(final(dst)@) == views(old(dst)@) + views(src@).subrange(lo as int, hi as int),
{
    let ghost d0 = views(dst@);
    let mut i: usize = lo;
    while i < hi
        invariant
            lo <= i <= hi,
            hi <= src@.len(),
            views(dst@) == d0 + views(src@).subrange(lo as int, i as int),
        decreases hi - i,
    {
        let ghost before = views(dst@);
        let c = src[i].clone();
        dst.push(c);
        assert(views(dst@) =~= before.push(src@[i as int]@));
        assert(views(src@).subrange(lo as int, i as int + 1) =~= views(src@).subrange(lo as int, i as int).push(src@[i as int]@));
        i = i + 1;
    }
}

} // verus!
