//! Small verified string-building helpers: concatenation and decimal
//! rendering of counters, used to assemble request ids, backend ids and
//! challenge paths.

use vstd::prelude::*;

verus! {

/// Relies on `String::push_str`: appends the slice's characters to the string.
#[verifier::external_body]
fn append_str(s: &mut String, t: &str)
    ensures
        final(s)@ == old(s)@ + t@,
{
    s.push_str(t)
}

/// Relies on `String::push`: appends the character to the string.
#[verifier::external_body]
fn append_char(s: &mut String, c: char)
    ensures
        final(s)@ == old(s)@.push(c),
{
    s.push(c)
}

/// The two pieces, in order, as one string.
pub fn concat2(a: &str, b: &str) -> (r: String)
    ensures
        r@ == a@ + b@,
{
    let mut s = a.to_owned();
    append_str(&mut s, b);
    s
}

/// The character for one decimal digit.
pub open spec fn digit_char(d: int) -> char {
    if d == 0 {
        '0'
    } else if d == 1 {
        '1'
    } else if d == 2 {
        '2'
    } else if d == 3 {
        '3'
    } else if d == 4 {
        '4'
    } else if d == 5 {
        '5'
    } else if d == 6 {
        '6'
    } else if d == 7 {
        '7'
    } else if d == 8 {
        '8'
    } else {
        '9'
    }
}

/// The decimal rendering of a natural number, most significant digit first.
pub open spec fn decimal_rep(n: nat) -> Seq<char>
    decreases n,
{
    if n < 10 {
        seq![digit_char(n as int)]
    } else {
        decimal_rep(n / 10).push(digit_char((n % 10) as int))
    }
}

/// A decimal rendering is never empty.
pub proof fn lemma_decimal_rep_len(n: nat)
    ensures
        decimal_rep(n).len() >= 1,
    decreases n,
{
    if n >= 10 {
        lemma_decimal_rep_len(n / 10);
    }
}

/// Distinct numbers render to distinct decimal strings.
pub proof fn lemma_decimal_rep_injective(a: nat, b: nat)
    requires
        decimal_rep(a) == decimal_rep(b),
    ensures
        a == b,
    decreases a + b,
{
    lemma_decimal_rep_len(a);
    lemma_decimal_rep_len(b);
    if a < 10 && b < 10 {
        assert(decimal_rep(a) == seq![digit_char(a as int)]);
        assert(decimal_rep(b) == seq![digit_char(b as int)]);
        assert(seq![digit_char(a as int)][0] == digit_char(a as int));
        assert(seq![digit_char(b as int)][0] == digit_char(b as int));
        assert(digit_char(a as int) == digit_char(b as int));
        assert(a == b);
    } else if a < 10 && b >= 10 {
        lemma_decimal_rep_len(b / 10);
        assert(decimal_rep(b).len() >= 2);
    } else if a >= 10 && b < 10 {
        lemma_decimal_rep_len(a / 10);
        assert(decimal_rep(a).len() >= 2);
    } else {
        let ra = decimal_rep(a);
        let rb = decimal_rep(b);
        assert(ra == decimal_rep(a / 10).push(digit_char((a % 10) as int)));
        assert(rb == decimal_rep(b / 10).push(digit_char((b % 10) as int)));
        assert(ra.last() == digit_char((a % 10) as int));
        assert(rb.last() == digit_char((b % 10) as int));
        assert(digit_char((a % 10) as int) == digit_char((b % 10) as int));
        assert(a % 10 == b % 10);
        assert(ra.drop_last() =~= decimal_rep(a / 10));
        assert(rb.drop_last() =~= decimal_rep(b / 10));
        assert(decimal_rep(a / 10) == decimal_rep(b / 10));
        lemma_decimal_rep_injective(a / 10, b / 10);
        assert(a == 10 * (a / 10) + a % 10);
        assert(b == 10 * (b / 10) + b % 10);
    }
}

fn digit_to_char(d: u64) -> (r: char)
    requires
        d < 10,
    ensures
        r == digit_char(d as int),
{
    if d == 0 {
        '0'
    } else if d == 1 {
        '1'
    } else if d == 2 {
        '2'
    } else if d == 3 {
        '3'
    } else if d == 4 {
        '4'
    } else if d == 5 {
        '5'
    } else if d == 6 {
        '6'
    } else if d == 7 {
        '7'
    } else if d == 8 {
        '8'
    } else {
        '9'
    }
}

/// The number rendered in decimal.
pub fn u64_to_decimal(n: u64) -> (r: String)
    ensures
        r@ == decimal_rep(n as nat),
    decreases n,
{
    if n < 10 {
        let mut s = String::new();
        append_char(&mut s, digit_to_char(n));
        proof {
            assert(s@ =~= decimal_rep(n as nat));
        }
        s
    } else {
        let mut s = u64_to_decimal(n / 10);
        append_char(&mut s, digit_to_char(n % 10));
        s
    }
}

} // verus!
