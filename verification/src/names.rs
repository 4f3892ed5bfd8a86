//! Instruction naming.
//!
//! A [`crate::engine::Builder`] gives every instruction it emits a name of
//! the form `action_<counter>`, where the counter is the builder's
//! monotonically increasing instruction counter.  This module renders those
//! names and proves that the rendering is injective, so that names handed
//! out by one builder are pairwise distinct.

use vstd::prelude::*;
use vstd::string::StringExecFns;

verus! {

/// The character for one decimal digit value.
pub open spec fn digit_char(d: nat) -> char {
    if d == 0 {
        '0'
    } else if d == 1 {
        '1'
    } else if d == 2 {
        '2'
    } else if d == 3 {
        '3'
    } else if d == 4 {
        '4'
    } else if d == 5 {
        '5'
    } else if d == 6 {
        '6'
    } else if d == 7 {
        '7'
    } else if d == 8 {
        '8'
    } else {
        '9'
    }
}

/// The numeric value of one decimal digit character.
pub open spec fn digit_val(c: char) -> nat {
    if c == '0' {
        0
    } else if c == '1' {
        1
    } else if c == '2' {
        2
    } else if c == '3' {
        3
    } else if c == '4' {
        4
    } else if c == '5' {
        5
    } else if c == '6' {
        6
    } else if c == '7' {
        7
    } else if c == '8' {
        8
    } else {
        9
    }
}

/// Decimal rendering of a natural number, most significant digit first,
/// without leading zeros (except for the number zero itself).
pub open spec fn decimal_spec(n: nat) -> Seq<char>
    decreases n,
{
    if n < 10 {
        seq![digit_char(n)]
    } else {
        decimal_spec(n / 10).push(digit_char(n % 10))
    }
}

/// The value a decimal rendering stands for, read back digit by digit.
pub open spec fn decimal_val(s: Seq<char>) -> nat
    decreases s.len(),
{
    if s.len() == 0 {
        0
    } else {
        decimal_val(s.drop_last()) * 10 + digit_val(s.last())
    }
}

/// The name assigned to the instruction with counter value `n`.
pub open spec fn action_name_spec(n: nat) -> Seq<char> {
    "action_"@ + decimal_spec(n)
}

/// Reading a decimal rendering back yields the rendered number; the
/// rendering is therefore injective.
pub proof fn lemma_decimal_round_trip(n: nat)
    ensures
        decimal_val(decimal_spec(n)) == n,
        decimal_spec(n).len() >= 1,
    decreases n,
{
    if n < 10 {
        let s = decimal_spec(n);
        assert(s =~= seq![digit_char(n)]);
        assert(s.drop_last() =~= Seq::<char>::empty());
        assert(s.last() == digit_char(n));
        assert(digit_val(digit_char(n)) == n);
        assert(decimal_val(s) == decimal_val(s.drop_last()) * 10 + digit_val(s.last()));
    } else {
        lemma_decimal_round_trip(n / 10);
        let s = decimal_spec(n / 10);
        let c = digit_char(n % 10);
        assert(s.push(c).drop_last() =~= s);
        assert(s.push(c).last() == c);
        assert(digit_val(c) == n % 10);
        assert(n / 10 * 10 + n % 10 == n) by {
            vstd::arithmetic::div_mod::lemma_fundamental_div_mod(n as int, 10);
        };
    }
}

/// Two distinct numbers never share a decimal rendering.
pub proof fn lemma_decimal_injective(a: nat, b: nat)
    requires
        decimal_spec(a) == decimal_spec(b),
    ensures
        a == b,
{
    lemma_decimal_round_trip(a);
    lemma_decimal_round_trip(b);
}

/// Instruction names are unique: distinct counter values always yield
/// distinct instruction names, regardless of which actions they were
/// assigned to.
pub proof fn lemma_action_names_unique(a: nat, b: nat)
    requires
        a != b,
    ensures
        action_name_spec(a) != action_name_spec(b),
{
    if action_name_spec(a) == action_name_spec(b) {
        let p = "action_"@;
        let sa = decimal_spec(a);
        let sb = decimal_spec(b);
        assert(sa =~= (p + sa).subrange(p.len() as int, (p + sa).len() as int));
        assert(sb =~= (p + sb).subrange(p.len() as int, (p + sb).len() as int));
        lemma_decimal_injective(a, b);
    }
}

/// One decimal digit as a string slice.
fn digit_str(d: u32) -> (r: &'static str)
    requires
        d < 10,
    ensures
        r@ == seq![digit_char(d as nat)],
{
    proof {
        reveal_strlit("0");
        reveal_strlit("1");
        reveal_strlit("2");
        reveal_strlit("3");
        reveal_strlit("4");
        reveal_strlit("5");
        reveal_strlit("6");
        reveal_strlit("7");
        reveal_strlit("8");
        reveal_strlit("9");
    }
    match d {
        0 => "0",
        1 => "1",
        2 => "2",
        3 => "3",
        4 => "4",
        5 => "5",
        6 => "6",
        7 => "7",
        8 => "8",
        _ => "9",
    }
}

/// Renders `n` in decimal.
pub fn decimal_string(n: u32) -> (r: String)
    ensures
        r@ == decimal_spec(n as nat),
    decreases n,
{
    if n < 10 {
        let mut s = String::new();
        s.append(digit_str(n));
        proof {
            assert(s@ =~= decimal_spec(n as nat));
        }
        s
    } else {
        let mut s = decimal_string(n / 10);
        s.append(digit_str(n % 10));
        proof {
            assert(s@ =~= decimal_spec(n as nat));
        }
        s
    }
}

/// Renders the name of the instruction with counter value `n`.
pub fn action_name(n: u32) -> (r: String)
    ensures
        r@ == action_name_spec(n as nat),
{
    let mut s = String::from_str("action_");
    let digits = decimal_string(n);
    s.append(digits.as_str());
    s
}

} // verus!
