//! Small text helpers used to build card titles and rationales.

use vstd::prelude::*;

verus! {

/// The characters of an optional string.
pub open spec fn opt_chars(o: Option<String>) -> Option<Seq<char>> {
    match o {
        Some(s) => Some(s@),
        None => None,
    }
}

/// The decimal digits of `n`, most significant first, without leading zeros.
pub open spec fn decimal_chars(n: nat) -> Seq<char>
    decreases n,
{
    if n < 10 {
        seq![digit_char(n)]
    } else {
        decimal_chars(n / 10).push(digit_char(n % 10))
    }
}

pub open spec fn digit_char(d: nat) -> char {
    if d == 0 { '0' }
    else if d == 1 { '1' }
    else if d == 2 { '2' }
    else if d == 3 { '3' }
    else if d == 4 { '4' }
    else if d == 5 { '5' }
    else if d == 6 { '6' }
    else if d == 7 { '7' }
    else if d == 8 { '8' }
    else { '9' }
}

fn digit_text(d: u8) -> (r: &'static str)
    requires
        d < 10,
    ensures
        r@ == seq![digit_char(d as nat)],
{
    proof {
        reveal_strlit("0");
        reveal_strlit("1");
        reveal_strlit("2");
        reveal_strlit("3");
        reveal_strlit("4");
        reveal_strlit("5");
        reveal_strlit("6");
        reveal_strlit("7");
        reveal_strlit("8");
        reveal_strlit("9");
    }
    if d == 0 { "0" }
    else if d == 1 { "1" }
    else if d == 2 { "2" }
    else if d == 3 { "3" }
    else if d == 4 { "4" }
    else if d == 5 { "5" }
    else if d == 6 { "6" }
    else if d == 7 { "7" }
    else if d == 8 { "8" }
    else { "9" }
}

/// The decimal text of a count.
pub fn decimal_text(n: u64) -> (r: String)
    ensures
        r@ == decimal_chars(n as nat),
    decreases n,
{
    if n < 10 {
        String::from_str(digit_text(n as u8))
    } else {
        let mut s = decimal_text(n / 10);
        s.append(digit_text((n % 10) as u8));
        s
    }
}

/// The two texts hold the same characters.
pub fn same_text(a: &str, b: &str) -> (r: bool)
    ensures
        r == (a@ == b@),
{
    String::from_str(a) == String::from_str(b)
}

/// `needle` occurs in `hay` as a contiguous run.
pub open spec fn contains_seq(hay: Seq<char>, needle: Seq<char>) -> bool {
    exists|i: int| 0 <= i <= hay.len() - needle.len() && #[trigger] hay.subrange(i, i + needle.len()) == needle
}

/// The characters before the first `c`, where `c` occurs.
pub open spec fn before_first(s: Seq<char>, c: char) -> Option<Seq<char>>
    decreases s.len(),
{
    if s.len() == 0 {
        None
    } else if s[0] == c {
        Some(Seq::empty())
    } else {
        match before_first(s.drop_first(), c) {
            Some(rest) => Some(seq![s[0]] + rest),
            None => None,
        }
    }
}

/// The lower-case form of a text, as `str::to_lowercase` gives it.
pub uninterp spec fn lower_of(s: Seq<char>) -> Seq<char>;

/// A text without its leading and trailing white space, as `str::trim` gives it.
pub uninterp spec fn trimmed_of(s: Seq<char>) -> Seq<char>;

/// Relies on `str::to_lowercase`: the result depends on the characters alone.
#[verifier::external_body]
pub(crate) fn lowercase(s: &str) -> (r: String)
    ensures
        r@ == lower_of(s@),
{
    s.to_lowercase()
}

/// Relies on `str::trim`: the result depends on the characters alone.
#[verifier::external_body]
pub(crate) fn trim_text(s: &str) -> (r: String)
    ensures
        r@ == trimmed_of(s@),
{
    s.trim().to_string()
}

/// Relies on `str::contains` with a string pattern: true exactly when the
/// pattern occurs in the text.
#[verifier::external_body]
pub(crate) fn text_contains(hay: &str, needle: &str) -> (r: bool)
    ensures
        r == contains_seq(hay@, needle@),
{
    hay.contains(needle)
}

/// Relies on `str::split_once` with a `char` pattern: it splits at the first
/// occurrence; the part before it is returned.
#[verifier::external_body]
pub(crate) fn text_before(s: &str, c: char) -> (r: Option<String>)
    ensures
        opt_chars(r) == before_first(s@, c),
{
    match s.split_once(c) {
        Some((before, _)) => Some(before.to_string()),
        None => None,
    }
}

/// The sum of the code points of a text.
pub open spec fn code_sum(s: Seq<char>) -> nat
    decreases s.len(),
{
    if s.len() == 0 {
        0
    } else {
        code_sum(s.drop_last()) + (s.last() as u32 as nat)
    }
}

/// The sum of the code points of `s`, modulo `m`.
pub fn code_sum_mod(s: &str, m: u32) -> (r: u32)
    requires
        m > 0,
    ensures
        r == code_sum(s@) % (m as nat),
{
    let mut acc: u32 = 0;
    assert(s@.subrange(0, 0) =~= Seq::<char>::empty());
    assert(0nat % (m as nat) == 0) by (nonlinear_arith)
        requires m > 0;
    for c in it: s.chars()
        invariant
            m > 0,
            it.seq() == s@,
            acc == code_sum(s@.subrange(0, it.index() as int)) % (m as nat),
    {
        proof {
            let k = it.index() as int;
            assert(s@.subrange(0, k + 1).drop_last() =~= s@.subrange(0, k));
            assert(c == s@[k]);
            vstd::arithmetic::div_mod::lemma_add_mod_noop_right(c as u32 as int, code_sum(s@.subrange(0, k)) as int, m as int);
        }
        let code: u64 = c as u32 as u64;
        acc = ((acc as u64 + code) % (m as u64)) as u32;
    }
    assert(s@.subrange(0, s@.len() as int) =~= s@);
    acc
}

} // verus!
