//! Streaming scanners over a character buffer.
//!
//! Every scanner looks at the buffer from a position onwards and either
//! recognises something (and reports where it ends), asks for more input,
//! or rejects the input. A scanner only asks for more input when the buffer
//! ends before its decision could be made.
use vstd::prelude::*;

verus! {

/// Why a scanner did not produce a value.
#[derive(Debug, Clone, Copy, PartialEq, Eq, Structural)]
pub enum Stop {
    /// The buffer ends before a decision can be made.
    More,
    /// The input does not match.
    Fail,
}

/// Relates an executable scan result to its model.
pub open spec fn agrees<T>(r: Result<(T, usize), Stop>, m: Result<(T, int), Stop>) -> bool {
    match r {
        Ok((v, n)) => m == Ok::<(T, int), Stop>((v, n as int)),
        Err(e) => m == Err::<(T, int), Stop>(e),
    }
}

/// Relates an executable scan result carrying text to its model.
pub open spec fn agrees_text(r: Result<(Vec<char>, usize), Stop>, m: Result<(Seq<char>, int), Stop>) -> bool {
    match r {
        Ok((v, n)) => m == Ok::<(Seq<char>, int), Stop>((v@, n as int)),
        Err(e) => m == Err::<(Seq<char>, int), Stop>(e),
    }
}

/// Relates an executable position result to its model.
pub open spec fn agrees_pos(r: Result<usize, Stop>, m: Result<int, Stop>) -> bool {
    match r {
        Ok(n) => m == Ok::<int, Stop>(n as int),
        Err(e) => m == Err::<int, Stop>(e),
    }
}

/// A literal: rejected at the first mismatching character, otherwise more
/// input is needed until the whole literal is present.
pub open spec fn sp_tag(s: Seq<char>, i: int, t: Seq<char>) -> Result<int, Stop> {
    let n = if s.len() - i < t.len() { s.len() - i } else { t.len() as int };
    if s.subrange(i, i + n) != t.subrange(0, n) {
        Err(Stop::Fail)
    } else if n < t.len() {
        Err(Stop::More)
    } else {
        Ok(i + t.len())
    }
}

/// A single given character.
pub open spec fn sp_char(s: Seq<char>, i: int, c: char) -> Result<int, Stop> {
    if i >= s.len() {
        Err(Stop::More)
    } else if s[i] == c {
        Ok(i + 1)
    } else {
        Err(Stop::Fail)
    }
}

pub open spec fn is_digit(c: char) -> bool {
    '0' <= c && c <= '9'
}

pub open spec fn digit_value(c: char) -> nat {
    (c as u32 - '0' as u32) as nat
}

pub open spec fn is_hex_digit(c: char) -> bool {
    ('0' <= c && c <= '9') || ('a' <= c && c <= 'f') || ('A' <= c && c <= 'F')
}

/// A class of characters that a run is made of.
pub enum Class {
    Digit,
    Hex,
    Not(char),
}

pub open spec fn in_class(c: char, k: Class) -> bool {
    match k {
        Class::Digit => is_digit(c),
        Class::Hex => is_hex_digit(c),
        Class::Not(x) => c != x,
    }
}

/// The end of the run of characters from `i` on that are in class `p`.
pub open spec fn run_end(s: Seq<char>, i: int, p: Class) -> int
    decreases s.len() - i,
{
    if 0 <= i < s.len() && in_class(s[i], p) {
        run_end(s, i + 1, p)
    } else {
        i
    }
}

/// The decimal value of `s[i..j]`.
pub open spec fn decimal(s: Seq<char>, i: int, j: int) -> nat
    decreases j - i,
{
    if j <= i {
        0
    } else {
        decimal(s, i, j - 1) * 10 + digit_value(s[j - 1])
    }
}

/// A run of decimal digits whose value is at most `bound`; the run must be
/// followed by a character that is not a digit.
pub open spec fn sp_digits(s: Seq<char>, i: int, bound: nat) -> Result<(nat, int), Stop> {
    let e = run_end(s, i, Class::Digit);
    if i >= s.len() {
        Err(Stop::More)
    } else if e == i {
        Err(Stop::Fail)
    } else if decimal(s, i, e) > bound {
        Err(Stop::Fail)
    } else if e >= s.len() {
        Err(Stop::More)
    } else {
        Ok((decimal(s, i, e), e))
    }
}

/// A signed decimal number with an optional sign, within `-low ..= high`.
pub open spec fn sp_signed(s: Seq<char>, i: int, high: nat, low: nat) -> Result<(int, int), Stop> {
    if i >= s.len() {
        Err(Stop::More)
    } else if s[i] == '-' {
        match sp_digits(s, i + 1, low) {
            Ok((v, e)) => Ok((-v, e)),
            Err(x) => Err(x),
        }
    } else {
        let j = if s[i] == '+' { i + 1 } else { i };
        match sp_digits(s, j, high) {
            Ok((v, e)) => Ok((v as int, e)),
            Err(x) => Err(x),
        }
    }
}

/// The end of the run from `i` on that holds no `stop` character.
pub open spec fn sp_until(s: Seq<char>, i: int, stop: char) -> Result<(Seq<char>, int), Stop> {
    let e = run_end(s, i, Class::Not(stop));
    if e >= s.len() {
        Err(Stop::More)
    } else if e == i {
        Err(Stop::Fail)
    } else {
        Ok((s.subrange(i, e), e))
    }
}

/// A possibly empty run of hexadecimal digits, which must be followed by
/// another character.
pub open spec fn sp_hex(s: Seq<char>, i: int) -> Result<(Seq<char>, int), Stop> {
    let e = run_end(s, i, Class::Hex);
    if e >= s.len() {
        Err(Stop::More)
    } else {
        Ok((s.subrange(i, e), e))
    }
}

pub proof fn lemma_run_end(s: Seq<char>, i: int, p: Class)
    requires
        0 <= i <= s.len(),
    ensures
        i <= run_end(s, i, p) <= s.len(),
        forall|k: int| i <= k < run_end(s, i, p) ==> in_class(#[trigger] s[k], p),
        run_end(s, i, p) < s.len() ==> !in_class(s[run_end(s, i, p)], p),
    decreases s.len() - i,
{
    if i < s.len() && in_class(s[i], p) {
        lemma_run_end(s, i + 1, p);
    }
}

/// `run_end` from a point inside a run is the end of that run.
pub proof fn lemma_run_end_inside(s: Seq<char>, i: int, k: int, p: Class)
    requires
        0 <= i <= k <= s.len(),
        forall|j: int| i <= j < k ==> in_class(#[trigger] s[j], p),
    ensures
        run_end(s, i, p) == run_end(s, k, p),
    decreases k - i,
{
    if i < k {
        lemma_run_end_inside(s, i + 1, k, p);
    }
}

pub proof fn lemma_decimal_grows(s: Seq<char>, i: int, j: int, k: int)
    requires
        i <= j <= k,
    ensures
        decimal(s, i, j) <= decimal(s, i, k),
    decreases k - j,
{
    if j < k {
        lemma_decimal_grows(s, i, j, k - 1);
    }
}

pub fn tag(s: &[char], i: usize, t: &[char]) -> (r: Result<usize, Stop>)
    requires
        i <= s@.len(),
    ensures
        agrees_pos(r, sp_tag(s@, i as int, t@)),
{
    let avail = s.len() - i;
    let n = if avail < t.len() { avail } else { t.len() };
    let end = i + n;
    let mut k: usize = 0;
    while k < n
        invariant
            k <= n,
            end == i + n,
            i <= s@.len(),
            n <= t@.len(),
            i + n <= s@.len(),
            s@.subrange(i as int, i + k) == t@.subrange(0, k as int),
        decreases n - k,
    {
        assert(i + k < s@.len());
        if s[i + k] != t[k] {
            proof {
                assert(s@.subrange(i as int, i + n)[k as int] != t@.subrange(0, n as int)[k as int]);
            }
            return Err(Stop::Fail);
        }
        proof {
            assert(s@.subrange(i as int, i + k + 1) =~= s@.subrange(i as int, i + k).push(s@[i + k]));
            assert(t@.subrange(0, k + 1) =~= t@.subrange(0, k as int).push(t@[k as int]));
        }
        k = k + 1;
    }
    if n < t.len() {
        Err(Stop::More)
    } else {
        Ok(i + t.len())
    }
}

pub fn one_char(s: &[char], i: usize, c: char) -> (r: Result<usize, Stop>)
    requires
        i <= s@.len(),
    ensures
        agrees_pos(r, sp_char(s@, i as int, c)),
{
    if i >= s.len() {
        Err(Stop::More)
    } else if s[i] == c {
        Ok(i + 1)
    } else {
        Err(Stop::Fail)
    }
}

pub fn digits(s: &[char], i: usize, bound: u32) -> (r: Result<(u32, usize), Stop>)
    requires
        i <= s@.len(),
        9 <= bound <= 65536,
    ensures
        match r {
            Ok((v, n)) => sp_digits(s@, i as int, bound as nat) == Ok::<(nat, int), Stop>((v as nat, n as int)),
            Err(e) => sp_digits(s@, i as int, bound as nat) == Err::<(nat, int), Stop>(e),
        },
{
    let ghost p = Class::Digit;
    proof {
        lemma_run_end(s@, i as int, p);
    }
    if i >= s.len() {
        return Err(Stop::More);
    }
    let mut j: usize = i;
    let mut v: u32 = 0;
    while j < s.len() && '0' <= s[j] && s[j] <= '9'
        invariant
            i <= j <= s@.len(),
            forall|k: int| i <= k < j ==> in_class(#[trigger] s@[k], p),
            v as nat == decimal(s@, i as int, j as int),
            v <= bound,
            9 <= bound <= 65536,
            p == Class::Digit,
            run_end(s@, i as int, p) == run_end(s@, j as int, p),
        decreases s@.len() - j,
    {
        let d = (s[j] as u32) - ('0' as u32);
        assert(is_digit(s@[j as int]));
        assert(in_class(s@[j as int], p));
        assert(d <= 9);
        proof {
            lemma_run_end_inside(s@, i as int, j + 1, p);
        }
        if v > (bound - d) / 10 {
            proof {
                assert(decimal(s@, i as int, j + 1) == v * 10 + d);
                assert(v * 10 + d > bound) by (nonlinear_arith)
                    requires v > (bound - d) / 10, d <= 9, 9 <= bound;
                lemma_run_end(s@, j + 1, p);
                lemma_decimal_grows(s@, i as int, j + 1, run_end(s@, i as int, p));
            }
            return Err(Stop::Fail);
        }
        proof {
            assert(v * 10 + d <= bound) by (nonlinear_arith)
                requires v <= (bound - d) / 10, d <= bound;
        }
        v = v * 10 + d;
        j = j + 1;
    }
    proof {
        lemma_run_end(s@, j as int, p);
    }
    if j == i {
        Err(Stop::Fail)
    } else if j >= s.len() {
        Err(Stop::More)
    } else {
        Ok((v, j))
    }
}

pub fn signed(s: &[char], i: usize, high: u32, low: u32) -> (r: Result<(i32, usize), Stop>)
    requires
        i <= s@.len(),
        9 <= high <= 65536,
        9 <= low <= 65536,
    ensures
        match r {
            Ok((v, n)) => sp_signed(s@, i as int, high as nat, low as nat) == Ok::<(int, int), Stop>((v as int, n as int)),
            Err(e) => sp_signed(s@, i as int, high as nat, low as nat) == Err::<(int, int), Stop>(e),
        },
{
    if i >= s.len() {
        return Err(Stop::More);
    }
    if s[i] == '-' {
        match digits(s, i + 1, low) {
            Ok((v, e)) => Ok((-(v as i32), e)),
            Err(x) => Err(x),
        }
    } else {
        let j = if s[i] == '+' { i + 1 } else { i };
        match digits(s, j, high) {
            Ok((v, e)) => Ok((v as i32, e)),
            Err(x) => Err(x),
        }
    }
}

pub fn until(s: &[char], i: usize, stop: char) -> (r: Result<(Vec<char>, usize), Stop>)
    requires
        i <= s@.len(),
    ensures
        agrees_text(r, sp_until(s@, i as int, stop)),
{
    let ghost p = Class::Not(stop);
    let mut out: Vec<char> = Vec::new();
    let mut j: usize = i;
    while j < s.len() && s[j] != stop
        invariant
            i <= j <= s@.len(),
            p == Class::Not(stop),
            out@ == s@.subrange(i as int, j as int),
            forall|k: int| i <= k < j ==> in_class(#[trigger] s@[k], p),
            run_end(s@, i as int, p) == run_end(s@, j as int, p),
        decreases s@.len() - j,
    {
        assert(in_class(s@[j as int], p));
        proof {
            lemma_run_end_inside(s@, i as int, j + 1, p);
        }
        out.push(s[j]);
        assert(out@ =~= s@.subrange(i as int, j + 1));
        j = j + 1;
    }
    proof {
        lemma_run_end(s@, j as int, p);
    }
    if j >= s.len() {
        Err(Stop::More)
    } else if j == i {
        Err(Stop::Fail)
    } else {
        Ok((out, j))
    }
}

pub fn is_hex_char(c: char) -> (r: bool)
    ensures
        r == is_hex_digit(c),
{
    ('0' <= c && c <= '9') || ('a' <= c && c <= 'f') || ('A' <= c && c <= 'F')
}

pub fn hex_run(s: &[char], i: usize) -> (r: Result<(Vec<char>, usize), Stop>)
    requires
        i <= s@.len(),
    ensures
        agrees_text(r, sp_hex(s@, i as int)),
{
    let ghost p = Class::Hex;
    let mut out: Vec<char> = Vec::new();
    let mut j: usize = i;
    while j < s.len() && is_hex_char(s[j])
        invariant
            i <= j <= s@.len(),
            p == Class::Hex,
            out@ == s@.subrange(i as int, j as int),
            forall|k: int| i <= k < j ==> in_class(#[trigger] s@[k], p),
            run_end(s@, i as int, p) == run_end(s@, j as int, p),
        decreases s@.len() - j,
    {
        assert(in_class(s@[j as int], p));
        proof {
            lemma_run_end_inside(s@, i as int, j + 1, p);
        }
        out.push(s[j]);
        assert(out@ =~= s@.subrange(i as int, j + 1));
        j = j + 1;
    }
    proof {
        lemma_run_end(s@, j as int, p);
    }
    if j >= s.len() {
        Err(Stop::More)
    } else {
        Ok((out, j))
    }
}

} // verus!
