//! The token of a confirmation link: 64 random bits, written in Crockford's
//! base 32 so that a person can read it off and type it in.

use crate::text::random_u64;
use vstd::prelude::*;
use vstd::string::*;

verus! {

/// The 32 symbols, in the order of their values: the digits and the capital
/// letters without I, L, O and U.
pub open spec fn alphabet() -> Seq<char> {
    "0123456789ABCDEFGHJKMNPQRSTVWXYZ"@
}

/// The symbol of a value below 32.
pub open spec fn symbol(value: nat) -> char {
    alphabet()[value as int]
}

/// A number in base 32, most significant symbol first, without leading
/// zeros; zero is one `0`.
pub open spec fn base32_text(number: nat) -> Seq<char>
    decreases number,
{
    if number < 32 {
        seq![symbol(number)]
    } else {
        base32_text(number / 32).push(symbol(number % 32))
    }
}

/// The powers of 32.
pub open spec fn pow32(exponent: nat) -> nat
    decreases exponent,
{
    if exponent == 0 {
        1
    } else {
        32 * pow32((exponent - 1) as nat)
    }
}

/// Calls `crockford::encode`. The contract states what the crate documents:
/// the number in Crockford's base 32, in capitals.
#[verifier::external_body]
fn crockford_encode(number: u64) -> (text: String)
    ensures
        text@ == base32_text(number as nat),
{
    crockford::encode(number)
}

/// A number below the `digits`-th power of 32 takes `digits` symbols at
/// most, and every symbol is of the alphabet.
pub proof fn lemma_text_shape(number: nat, digits: nat)
    requires
        digits >= 1,
        number < pow32(digits),
    ensures
        1 <= base32_text(number).len() <= digits,
        forall|i: int|
            0 <= i < base32_text(number).len() ==> alphabet().contains(
                #[trigger] base32_text(number)[i],
            ),
    decreases number,
{
    reveal_strlit("0123456789ABCDEFGHJKMNPQRSTVWXYZ");
    if number < 32 {
        assert(alphabet()[number as int] == symbol(number));
    } else {
        assert(pow32(1) == 32) by {
            reveal_with_fuel(pow32, 2);
        }
        assert(digits >= 2);
        assert(pow32(digits) == 32 * pow32((digits - 1) as nat));
        lemma_text_shape(number / 32, (digits - 1) as nat);
        assert(alphabet()[(number % 32) as int] == symbol(number % 32));
    }
}

/// The value of a symbol of the alphabet.
pub open spec fn symbol_value(c: char) -> nat {
    choose|value: nat| value < 32 && symbol(value) == c
}

/// The number that a text in base 32 spells.
pub open spec fn base32_value(text: Seq<char>) -> nat
    decreases text.len(),
{
    if text.len() == 0 {
        0
    } else {
        base32_value(text.drop_last()) * 32 + symbol_value(text.last())
    }
}

/// No two values share a symbol.
pub proof fn lemma_symbols_differ(a: nat, b: nat)
    requires
        a < 32,
        b < 32,
        symbol(a) == symbol(b),
    ensures
        a == b,
{
    reveal_strlit("0123456789ABCDEFGHJKMNPQRSTVWXYZ");
}

/// Reading the text of a number gives the number back.
pub proof fn lemma_text_reads_back(number: nat)
    ensures
        base32_value(base32_text(number)) == number,
    decreases number,
{
    let text = base32_text(number);
    let last = (number % 32) as nat;
    assert(symbol_value(symbol(last)) == last) by {
        let chosen = symbol_value(symbol(last));
        assert(last < 32 && symbol(last) == symbol(last));
        lemma_symbols_differ(chosen, last);
    }
    if number < 32 {
        assert(text.drop_last() =~= Seq::<char>::empty());
        assert(text.last() == symbol(number));
        assert(base32_value(text.drop_last()) == 0);
    } else {
        lemma_text_reads_back(number / 32);
        assert(text.drop_last() =~= base32_text(number / 32));
        assert(text.last() == symbol(last));
    }
}

/// Two numbers have the same link token only where they are the same
/// number: tokens collide no more often than the random numbers do.
pub proof fn law_links_differ(first: nat, second: nat)
    requires
        base32_text(first) == base32_text(second),
    ensures
        first == second,
{
    lemma_text_reads_back(first);
    lemma_text_reads_back(second);
}

/// The link token of a number.
pub fn link_for(number: u64) -> (link: String)
    ensures
        link@ == base32_text(number as nat),
        1 <= link@.len() <= 13,
        forall|i: int| 0 <= i < link@.len() ==> alphabet().contains(#[trigger] link@[i]),
{
    proof {
        assert(pow32(13) == 0x2_0000_0000_0000_0000) by {
            reveal_with_fuel(pow32, 14);
        }
        lemma_text_shape(number as nat, 13);
    }
    crockford_encode(number)
}

/// A fresh link token: the token of 64 random bits.
pub fn generate_link() -> (link: String)
    ensures
        exists|number: u64| link@ == #[trigger] base32_text(number as nat),
        1 <= link@.len() <= 13,
        forall|i: int| 0 <= i < link@.len() ==> alphabet().contains(#[trigger] link@[i]),
{
    let number = random_u64();
    let link = link_for(number);
    assert(link@ == base32_text(number as nat));
    link
}

} // verus!
