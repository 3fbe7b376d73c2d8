//! Decimal rendering of the values that the emission loop prints.
//!
//! The loop writes one decimal integer per line. `dec_rep` is the
//! mathematical statement of that rendering, `format_u32` the verified
//! renderer, and `dec_val` the denotation of a digit string, with a proof
//! that rendering round-trips: a printed line denotes exactly the value it
//! was rendered from.

use vstd::prelude::*;
use vstd::string::StringExecFns;

verus! {

/// The character for the decimal digit `d` (meaningful for `d < 10`).
pub open spec fn digit_char(d: nat) -> char {
    if d == 0 {
        '0'
    } else if d == 1 {
        '1'
    } else if d == 2 {
        '2'
    } else if d == 3 {
        '3'
    } else if d == 4 {
        '4'
    } else if d == 5 {
        '5'
    } else if d == 6 {
        '6'
    } else if d == 7 {
        '7'
    } else if d == 8 {
        '8'
    } else {
        '9'
    }
}

/// The numeric value of a decimal digit character (0 for anything else).
pub open spec fn char_val(c: char) -> nat {
    if c == '0' {
        0
    } else if c == '1' {
        1
    } else if c == '2' {
        2
    } else if c == '3' {
        3
    } else if c == '4' {
        4
    } else if c == '5' {
        5
    } else if c == '6' {
        6
    } else if c == '7' {
        7
    } else if c == '8' {
        8
    } else if c == '9' {
        9
    } else {
        0
    }
}

/// The decimal rendering of `n`, most significant digit first, with no
/// leading zeros (and `"0"` for zero itself).
pub open spec fn dec_rep(n: nat) -> Seq<char>
    decreases n,
{
    if n < 10 {
        seq![digit_char(n)]
    } else {
        dec_rep(n / 10) + seq![digit_char(n % 10)]
    }
}

/// The number a string of decimal digit characters denotes.
pub open spec fn dec_val(s: Seq<char>) -> nat
    decreases s.len(),
{
    if s.len() == 0 {
        0
    } else {
        dec_val(s.drop_last()) * 10 + char_val(s.last())
    }
}

/// Rendering round-trips: the decimal rendering of `n` denotes `n`.
pub proof fn lemma_dec_val_dec_rep(n: nat)
    ensures
        dec_val(dec_rep(n)) == n,
    decreases n,
{
    if n < 10 {
        assert(dec_rep(n) == seq![digit_char(n)]);
        assert(seq![digit_char(n)].drop_last() =~= Seq::<char>::empty());
        assert(dec_val(Seq::<char>::empty()) == 0);
        assert(char_val(digit_char(n)) == n);
    } else {
        lemma_dec_val_dec_rep(n / 10);
        assert((dec_rep(n / 10) + seq![digit_char(n % 10)]).drop_last() =~= dec_rep(n / 10));
        assert((dec_rep(n / 10) + seq![digit_char(n % 10)]).last() == digit_char(n % 10));
        assert(char_val(digit_char(n % 10)) == n % 10);
        assert(dec_val(dec_rep(n)) == dec_val(dec_rep(n / 10)) * 10 + char_val(digit_char(n % 10)));
        vstd::arithmetic::div_mod::lemma_fundamental_div_mod(n as int, 10);
        assert(n == 10 * (n / 10) + n % 10);
    }
}

/// Two values with the same decimal rendering are the same value.
pub proof fn lemma_dec_rep_injective(a: nat, b: nat)
    requires
        dec_rep(a) == dec_rep(b),
    ensures
        a == b,
{
    lemma_dec_val_dec_rep(a);
    lemma_dec_val_dec_rep(b);
}

/// The digit characters of `digits` read back to front.
spec fn rev_digit_chars(digits: Seq<u32>) -> Seq<char>
    decreases digits.len(),
{
    if digits.len() == 0 {
        Seq::empty()
    } else {
        seq![digit_char(digits.last() as nat)] + rev_digit_chars(digits.drop_last())
    }
}

proof fn lemma_rev_digit_chars_concat(u: Seq<u32>, w: Seq<u32>)
    ensures
        rev_digit_chars(u + w) == rev_digit_chars(w) + rev_digit_chars(u),
    decreases w.len(),
{
    if w.len() == 0 {
        assert(u + w =~= u);
        assert(rev_digit_chars(w) + rev_digit_chars(u) =~= rev_digit_chars(u));
    } else {
        lemma_rev_digit_chars_concat(u, w.drop_last());
        assert((u + w).drop_last() =~= u + w.drop_last());
        assert((u + w).last() == w.last());
        assert(rev_digit_chars(u + w) =~= rev_digit_chars(w) + rev_digit_chars(u));
    }
}

/// The string slice holding exactly the decimal digit `d`.
fn digit_str(d: u32) -> (r: &'static str)
    requires
        d < 10,
    ensures
        r@ == seq![digit_char(d as nat)],
{
    proof {
        reveal_strlit("0");
        reveal_strlit("1");
        reveal_strlit("2");
        reveal_strlit("3");
        reveal_strlit("4");
        reveal_strlit("5");
        reveal_strlit("6");
        reveal_strlit("7");
        reveal_strlit("8");
        reveal_strlit("9");
    }
    let r: &'static str = if d == 0 {
        "0"
    } else if d == 1 {
        "1"
    } else if d == 2 {
        "2"
    } else if d == 3 {
        "3"
    } else if d == 4 {
        "4"
    } else if d == 5 {
        "5"
    } else if d == 6 {
        "6"
    } else if d == 7 {
        "7"
    } else if d == 8 {
        "8"
    } else {
        "9"
    };
    proof {
        assert(r@ =~= seq![digit_char(d as nat)]);
    }
    r
}

/// Renders `v` in decimal, exactly as the emission loop prints it.
pub fn format_u32(v: u32) -> (r: String)
    ensures
        r@ == dec_rep(v as nat),
{
    let mut digits: Vec<u32> = Vec::new();
    let mut n: u32 = v;
    while n >= 10
        invariant
            dec_rep(v as nat) =~= dec_rep(n as nat) + rev_digit_chars(digits@),
            forall|k: int| 0 <= k < digits@.len() ==> digits@[k] < 10,
        decreases n,
    {
        let d: u32 = n % 10;
        let ghost prev = digits@;
        digits.push(d);
        proof {
            assert(digits@.drop_last() =~= prev);
            assert(rev_digit_chars(digits@) =~= seq![digit_char(d as nat)] + rev_digit_chars(prev));
            assert(dec_rep(v as nat) =~= dec_rep((n / 10) as nat) + rev_digit_chars(digits@));
        }
        n = n / 10;
    }
    let mut out = String::new();
    out.append(digit_str(n));
    let mut i: usize = digits.len();
    proof {
        assert(digits@.skip(i as int) =~= Seq::<u32>::empty());
        assert(out@ =~= seq![digit_char(n as nat)] + rev_digit_chars(digits@.skip(i as int)));
    }
    while i > 0
        invariant
            i <= digits@.len(),
            n < 10,
            forall|k: int| 0 <= k < digits@.len() ==> digits@[k] < 10,
            dec_rep(v as nat) =~= dec_rep(n as nat) + rev_digit_chars(digits@),
            out@ =~= seq![digit_char(n as nat)] + rev_digit_chars(digits@.skip(i as int)),
        decreases i,
    {
        i = i - 1;
        let d: u32 = digits[i];
        out.append(digit_str(d));
        proof {
            assert(digits@.skip(i as int) =~= seq![d] + digits@.skip(i as int + 1));
            lemma_rev_digit_chars_concat(seq![d], digits@.skip(i as int + 1));
            assert(seq![d].drop_last() =~= Seq::<u32>::empty());
            assert(rev_digit_chars(Seq::<u32>::empty()) =~= Seq::<char>::empty());
            assert(rev_digit_chars(seq![d]) =~= seq![digit_char(d as nat)]);
            assert(out@ =~= seq![digit_char(n as nat)] + rev_digit_chars(digits@.skip(i as int)));
        }
    }
    proof {
        assert(digits@.skip(0) =~= digits@);
        assert(out@ =~= dec_rep(v as nat));
    }
    out
}

} // verus!
