use vstd::prelude::*;

verus! {

/// The character of a decimal digit.
pub open spec fn digit_char(d: nat) -> char {
    if d == 0 { '0' }
    else if d == 1 { '1' }
    else if d == 2 { '2' }
    else if d == 3 { '3' }
    else if d == 4 { '4' }
    else if d == 5 { '5' }
    else if d == 6 { '6' }
    else if d == 7 { '7' }
    else if d == 8 { '8' }
    else { '9' }
}

/// The decimal notation of `n`: no sign and no leading zeros.
pub open spec fn decimal(n: nat) -> Seq<char>
    decreases n,
{
    if n < 10 {
        seq![digit_char(n)]
    } else {
        decimal(n / 10).push(digit_char(n % 10))
    }
}

/// The decimal notation of an integer of either sign: a minus sign before the
/// digits of a negative one.
pub open spec fn signed_decimal(n: int) -> Seq<char> {
    if n < 0 {
        seq!['-'] + decimal((-n) as nat)
    } else {
        decimal(n as nat)
    }
}

/// Relies on `ToString::to_string` through `i64`'s `Display`, which writes a
/// minus sign before a negative value and then its decimal digits without
/// leading zeros.
#[verifier::external_body]
pub(crate) fn signed_decimal_text(n: i64) -> (r: String)
    ensures
        r@ == signed_decimal(n as int),
{
    n.to_string()
}

/// Relies on `ToString::to_string` through `u128`'s `Display`, which writes the
/// value in decimal digits without sign or leading zeros.
#[verifier::external_body]
pub(crate) fn decimal_text(n: u128) -> (r: String)
    ensures
        r@ == decimal(n as nat),
{
    n.to_string()
}

/// Decimal notation has at least one digit, and two from ten on.
pub proof fn lemma_decimal_len(n: nat)
    ensures
        decimal(n).len() >= 1,
        n >= 10 ==> decimal(n).len() >= 2,
    decreases n,
{
    if n >= 10 {
        lemma_decimal_len(n / 10);
    }
}

/// Different numbers have different decimal notations.
pub proof fn lemma_decimal_injective(a: nat, b: nat)
    requires
        decimal(a) == decimal(b),
    ensures
        a == b,
    decreases a,
{
    lemma_decimal_len(a);
    lemma_decimal_len(b);
    if a < 10 && b < 10 {
        assert(decimal(a)[0] == digit_char(a));
        assert(decimal(b)[0] == digit_char(b));
    } else if a >= 10 && b >= 10 {
        let pa = decimal(a / 10);
        let pb = decimal(b / 10);
        assert(decimal(a).last() == digit_char(a % 10));
        assert(decimal(b).last() == digit_char(b % 10));
        assert(decimal(a).drop_last() =~= pa);
        assert(decimal(b).drop_last() =~= pb);
        lemma_decimal_injective(a / 10, b / 10);
    } else {
        lemma_decimal_len(a / 10);
        lemma_decimal_len(b / 10);
    }
}

/// Decimal notation never starts with a minus sign.
pub proof fn lemma_decimal_unsigned(n: nat)
    ensures
        decimal(n)[0] != '-',
    decreases n,
{
    lemma_decimal_len(n);
    if n >= 10 {
        lemma_decimal_len(n / 10);
        lemma_decimal_unsigned(n / 10);
        assert(decimal(n)[0] == decimal(n / 10)[0]);
    }
}

/// Different integers have different signed decimal notations, so rows with
/// distinct identifiers give events with distinct identifiers.
pub proof fn lemma_signed_decimal_injective(a: int, b: int)
    requires
        signed_decimal(a) == signed_decimal(b),
    ensures
        a == b,
{
    if a < 0 && b < 0 {
        assert(decimal((-a) as nat) =~= signed_decimal(a).drop_first());
        assert(decimal((-b) as nat) =~= signed_decimal(b).drop_first());
        lemma_decimal_injective((-a) as nat, (-b) as nat);
    } else if a >= 0 && b >= 0 {
        lemma_decimal_injective(a as nat, b as nat);
    } else if a < 0 {
        lemma_decimal_unsigned(b as nat);
        assert(signed_decimal(a)[0] == '-');
    } else {
        lemma_decimal_unsigned(a as nat);
        assert(signed_decimal(b)[0] == '-');
    }
}

} // verus!
