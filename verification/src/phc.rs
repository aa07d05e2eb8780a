//! The shape of a stored password hash: the text that an Argon2 hashing
//! session is written down as.
//!
//! A hash reads `$argon2` and the variant's letter, then `$m=`, `,t=` and
//! `,p=` with a decimal number each, then the key and the associated data, or
//! the data alone, or neither, as `,keyid=` and `,data=` with base64 text
//! each, then `$` and the salt and `$` and the digest, both in base64.
//!
//! A text of that shape is one that the Argon2 crate reads without running
//! off its end; the bounds on the key, the salt and the costs keep the hash
//! that it then computes within what it can take and a machine can give.

use vstd::prelude::*;
use vstd::string::*;
use vstd::utf8::*;

verus! {

/// The longest base64 text of a key: 43 characters hold 32 bytes.
pub const KEY_TEXT_MAX: usize = 43;

/// The shortest base64 text of a salt: 11 characters hold 8 bytes.
pub const SALT_TEXT_MIN: usize = 11;

/// The longest hash text that is looked at.
pub const TEXT_MAX: usize = 0xffff_ffff;

/// The most memory that a stored hash may ask for, in KiB: 1 GiB.
pub const MEMORY_KIB_MAX: u64 = 0x10_0000;

/// The most lanes, and so threads, that a stored hash may ask for.
pub const LANES_MAX: u64 = 255;

/// A decimal digit.
pub open spec fn is_digit(b: u8) -> bool {
    48 <= b <= 57
}

/// A character of the base64 alphabet: a letter, a digit, `+` or `/`.
pub open spec fn is_base64(b: u8) -> bool {
    b == 43 || b == 47 || (48 <= b <= 57) || (65 <= b <= 90) || (97 <= b <= 122)
}

/// Whether a byte belongs to the digits, or else to the base64 alphabet.
pub open spec fn in_class(b: u8, digits: bool) -> bool {
    if digits {
        is_digit(b)
    } else {
        is_base64(b)
    }
}

/// Where the longest run of bytes of one class ends that starts at `from`.
pub open spec fn run_end(text: Seq<u8>, from: int, digits: bool) -> int
    decreases text.len() - from,
{
    if 0 <= from < text.len() && in_class(text[from], digits) {
        run_end(text, from + 1, digits)
    } else {
        from
    }
}

/// The powers of ten.
pub open spec fn pow10(exponent: nat) -> nat
    decreases exponent,
{
    if exponent == 0 {
        1
    } else {
        10 * pow10((exponent - 1) as nat)
    }
}

/// The powers of ten grow with the exponent.
proof fn lemma_pow10_grows(small: nat, large: nat)
    requires
        small <= large,
    ensures
        1 <= pow10(small) <= pow10(large),
    decreases large,
{
    if large > 0 {
        if small < large {
            lemma_pow10_grows(small, (large - 1) as nat);
        } else {
            lemma_pow10_grows((small - 1) as nat, (large - 1) as nat);
        }
    }
}

/// Every byte of a run is of the run's class, and the run ends within the
/// text.
proof fn lemma_run_holds_class(text: Seq<u8>, from: int, digits: bool)
    requires
        0 <= from <= text.len(),
    ensures
        from <= run_end(text, from, digits) <= text.len(),
        forall|i: int| from <= i < run_end(text, from, digits) ==> in_class(#[trigger] text[i], digits),
    decreases text.len() - from,
{
    if from < text.len() && in_class(text[from], digits) {
        lemma_run_holds_class(text, from + 1, digits);
    }
}

/// The position behind `word`, where the text holds `word` at `at`.
pub open spec fn after_word(text: Seq<u8>, at: Option<int>, word: Seq<u8>) -> Option<int> {
    match at {
        Some(i) => if 0 <= i && i + word.len() <= text.len() && text.subrange(
            i,
            i + word.len(),
        ) == word {
            Some(i + word.len())
        } else {
            None
        },
        None => None,
    }
}

/// The position behind the variant's letter, `d` or `i`.
pub open spec fn after_variant(text: Seq<u8>, at: Option<int>) -> Option<int> {
    match at {
        Some(i) => if 0 <= i < text.len() && (text[i] == 100 || text[i] == 105) {
            Some(i + 1)
        } else {
            None
        },
        None => None,
    }
}

/// The position behind the run of one class that starts at `at`, where the
/// run holds `least` bytes at least and `most` at most.
pub open spec fn after_run(
    text: Seq<u8>,
    at: Option<int>,
    digits: bool,
    least: int,
    most: int,
) -> Option<int> {
    match at {
        Some(i) => if 0 <= i <= text.len() && least <= run_end(text, i, digits) - i <= most {
            Some(run_end(text, i, digits))
        } else {
            None
        },
        None => None,
    }
}

/// The position behind the key and the associated data: both, the data
/// alone, or neither. A key without data is not part of the shape: what
/// follows such a key cannot be told from the key.
pub open spec fn after_key_and_data(text: Seq<u8>, at: Option<int>) -> Option<int> {
    let key = after_word(text, at, ",keyid=".spec_bytes());
    let data = after_word(text, at, ",data=".spec_bytes());
    if key is Some {
        let key_end = after_run(text, key, false, 1, KEY_TEXT_MAX as int);
        after_run(
            text,
            after_word(text, key_end, ",data=".spec_bytes()),
            false,
            1,
            TEXT_MAX as int,
        )
    } else if data is Some {
        after_run(text, data, false, 1, TEXT_MAX as int)
    } else {
        at
    }
}

/// The number that the digits from `from` up to `to` spell.
pub open spec fn number_at(text: Seq<u8>, from: int, to: int) -> nat
    decreases to - from,
{
    if from < to && 0 < to <= text.len() {
        (number_at(text, from, to - 1) * 10 + (text[to - 1] - 48)) as nat
    } else {
        0
    }
}

/// Where the digits of the memory cost start.
pub open spec fn memory_start(text: Seq<u8>) -> Option<int> {
    after_word(
        text,
        after_variant(text, after_word(text, Some(0), "$argon2".spec_bytes())),
        "$m=".spec_bytes(),
    )
}

/// Where the digits of the memory cost end.
pub open spec fn memory_end(text: Seq<u8>) -> Option<int> {
    after_run(text, memory_start(text), true, 1, 10)
}

/// Where the digits of the time cost end.
pub open spec fn time_end(text: Seq<u8>) -> Option<int> {
    after_run(text, after_word(text, memory_end(text), ",t=".spec_bytes()), true, 1, 10)
}

/// Where the digits of the number of lanes start.
pub open spec fn lanes_start(text: Seq<u8>) -> Option<int> {
    after_word(text, time_end(text), ",p=".spec_bytes())
}

/// Where the digits of the number of lanes end.
pub open spec fn lanes_end(text: Seq<u8>) -> Option<int> {
    after_run(text, lanes_start(text), true, 1, 10)
}

/// The position behind a whole hash that starts the text.
pub open spec fn after_hash(text: Seq<u8>) -> Option<int> {
    let extras = after_key_and_data(text, lanes_end(text));
    let salt = after_run(
        text,
        after_word(text, extras, "$".spec_bytes()),
        false,
        SALT_TEXT_MIN as int,
        TEXT_MAX as int,
    );
    after_run(text, after_word(text, salt, "$".spec_bytes()), false, 1, TEXT_MAX as int)
}

/// Whether the memory and the lanes that a hash asks for are within the
/// bounds.
pub open spec fn costs_bounded(text: Seq<u8>) -> bool {
    &&& memory_start(text) is Some && memory_end(text) is Some
    &&& lanes_start(text) is Some && lanes_end(text) is Some
    &&& number_at(text, memory_start(text)->0, memory_end(text)->0) <= MEMORY_KIB_MAX
    &&& number_at(text, lanes_start(text)->0, lanes_end(text)->0) <= LANES_MAX
}

/// Whether a text is one hash and nothing else, not longer than the longest
/// that is looked at, with costs within the bounds.
pub open spec fn hash_shaped(text: Seq<u8>) -> bool {
    text.len() <= TEXT_MAX && after_hash(text) == Some(text.len() as int) && costs_bounded(text)
}

/// Every byte before `upto` has seven bits.
pub open spec fn seven_bit(text: Seq<u8>, upto: int) -> bool {
    forall|i: int| 0 <= i < upto ==> #[trigger] text[i] < 128
}

/// A word of ASCII characters that the text holds leaves the text in seven
/// bits up to its end.
proof fn lemma_word_is_seven_bit(text: Seq<u8>, at: Option<int>, word: &str)
    requires
        is_ascii(word),
        after_word(text, at, word.spec_bytes()) is Some,
        seven_bit(text, at->0),
    ensures
        seven_bit(text, after_word(text, at, word.spec_bytes())->0),
{
    is_ascii_spec_bytes(word);
    let from = at->0;
    let letters = word.spec_bytes();
    assert forall|i: int| 0 <= i < from + letters.len() implies #[trigger] text[i] < 128 by {
        if i >= from {
            assert(text.subrange(from, from + letters.len())[i - from] == letters[i - from]);
            assert(letters[i - from] == word@[i - from] as u8);
        }
    }
}

/// A run leaves the text in seven bits up to its end.
proof fn lemma_run_is_seven_bit(text: Seq<u8>, at: Option<int>, digits: bool, least: int, most: int)
    requires
        after_run(text, at, digits, least, most) is Some,
        seven_bit(text, at->0),
    ensures
        seven_bit(text, after_run(text, at, digits, least, most)->0),
{
    lemma_run_holds_class(text, at->0, digits);
}

/// A text of the shape of a hash is in ASCII, and so in UTF-8.
pub proof fn lemma_hash_text_is_ascii(text: Seq<u8>)
    requires
        hash_shaped(text),
    ensures
        seven_bit(text, text.len() as int),
        valid_utf8(text),
{
    reveal_strlit("$argon2");
    reveal_strlit("$m=");
    reveal_strlit(",t=");
    reveal_strlit(",p=");
    reveal_strlit(",keyid=");
    reveal_strlit(",data=");
    reveal_strlit("$");
    let head = after_word(text, Some(0), "$argon2".spec_bytes());
    lemma_word_is_seven_bit(text, Some(0), "$argon2");
    let variant = after_variant(text, head);
    assert(seven_bit(text, variant->0));
    lemma_word_is_seven_bit(text, variant, "$m=");
    lemma_run_is_seven_bit(text, memory_start(text), true, 1, 10);
    let time_from = after_word(text, memory_end(text), ",t=".spec_bytes());
    lemma_word_is_seven_bit(text, memory_end(text), ",t=");
    lemma_run_is_seven_bit(text, time_from, true, 1, 10);
    lemma_word_is_seven_bit(text, time_end(text), ",p=");
    lemma_run_is_seven_bit(text, lanes_start(text), true, 1, 10);
    let lanes = lanes_end(text);
    let key = after_word(text, lanes, ",keyid=".spec_bytes());
    let data = after_word(text, lanes, ",data=".spec_bytes());
    let extras = after_key_and_data(text, lanes);
    if key is Some {
        lemma_word_is_seven_bit(text, lanes, ",keyid=");
        let key_end = after_run(text, key, false, 1, KEY_TEXT_MAX as int);
        lemma_run_is_seven_bit(text, key, false, 1, KEY_TEXT_MAX as int);
        lemma_word_is_seven_bit(text, key_end, ",data=");
        lemma_run_is_seven_bit(
            text,
            after_word(text, key_end, ",data=".spec_bytes()),
            false,
            1,
            TEXT_MAX as int,
        );
    } else if data is Some {
        lemma_word_is_seven_bit(text, lanes, ",data=");
        lemma_run_is_seven_bit(text, data, false, 1, TEXT_MAX as int);
    }
    assert(seven_bit(text, extras->0));
    let salt_from = after_word(text, extras, "$".spec_bytes());
    lemma_word_is_seven_bit(text, extras, "$");
    let salt = after_run(text, salt_from, false, SALT_TEXT_MIN as int, TEXT_MAX as int);
    lemma_run_is_seven_bit(text, salt_from, false, SALT_TEXT_MIN as int, TEXT_MAX as int);
    lemma_word_is_seven_bit(text, salt, "$");
    lemma_run_is_seven_bit(
        text,
        after_word(text, salt, "$".spec_bytes()),
        false,
        1,
        TEXT_MAX as int,
    );
    assert(seven_bit(text, text.len() as int));
    assert(text.subrange(0, 0) =~= Seq::<u8>::empty());
    assert(partial_valid_utf8(text, 0));
    partial_valid_utf8_extend_ascii_block(text, 0, text.len() as int);
    assert(text.subrange(0, text.len() as int) =~= text);
}

/// A position as a mathematical integer.
pub open spec fn at_int(at: Option<usize>) -> Option<int> {
    match at {
        Some(i) => Some(i as int),
        None => None,
    }
}

fn skip_word(text: &[u8], at: Option<usize>, word: &str) -> (end: Option<usize>)
    ensures
        at_int(end) == after_word(text@, at_int(at), word.spec_bytes()),
{
    let start = match at {
        Some(i) => i,
        None => { return None; },
    };
    let letters = word.as_bytes();
    if start > text.len() || letters.len() > text.len() - start {
        return None;
    }
    let mut k: usize = 0;
    while k < letters.len()
        invariant
            at == Some(start),
            letters@ == word.spec_bytes(),
            start + letters@.len() <= text@.len() <= usize::MAX,
            k <= letters@.len(),
            forall|j: int| 0 <= j < k ==> text@[start + j] == letters@[j],
        decreases letters@.len() - k,
    {
        if text[start + k] != letters[k] {
            assert(text@.subrange(start as int, start + letters@.len())[k as int] != letters@[k as int]);
            return None;
        }
        k += 1;
    }
    assert(text@.subrange(start as int, start + letters@.len()) =~= letters@);
    Some(start + letters.len())
}

fn skip_variant(text: &[u8], at: Option<usize>) -> (end: Option<usize>)
    ensures
        at_int(end) == after_variant(text@, at_int(at)),
{
    match at {
        Some(i) => if i < text.len() && (text[i] == 100 || text[i] == 105) {
            Some(i + 1)
        } else {
            None
        },
        None => None,
    }
}

fn byte_in_class(b: u8, digits: bool) -> (ok: bool)
    ensures
        ok == in_class(b, digits),
{
    if digits {
        48 <= b && b <= 57
    } else {
        b == 43 || b == 47 || (48 <= b && b <= 57) || (65 <= b && b <= 90) || (97 <= b && b
            <= 122)
    }
}

fn skip_run(text: &[u8], at: Option<usize>, digits: bool, least: usize, most: usize) -> (end:
    Option<usize>)
    ensures
        at_int(end) == after_run(text@, at_int(at), digits, least as int, most as int),
{
    let start = match at {
        Some(i) => i,
        None => { return None; },
    };
    if start > text.len() {
        return None;
    }
    let mut i: usize = start;
    while i < text.len() && byte_in_class(text[i], digits)
        invariant
            start <= i <= text@.len(),
            run_end(text@, start as int, digits) == run_end(text@, i as int, digits),
        decreases text@.len() - i,
    {
        i += 1;
    }
    if least <= i - start && i - start <= most {
        Some(i)
    } else {
        None
    }
}

fn skip_key_and_data(text: &[u8], at: Option<usize>) -> (end: Option<usize>)
    ensures
        at_int(end) == after_key_and_data(text@, at_int(at)),
{
    let key = skip_word(text, at, ",keyid=");
    let data = skip_word(text, at, ",data=");
    if key.is_some() {
        let key_end = skip_run(text, key, false, 1, KEY_TEXT_MAX);
        skip_run(text, skip_word(text, key_end, ",data="), false, 1, TEXT_MAX)
    } else if data.is_some() {
        skip_run(text, data, false, 1, TEXT_MAX)
    } else {
        at
    }
}

/// The number that at most ten digits spell.
fn decimal(text: &[u8], from: usize, to: usize) -> (number: u64)
    requires
        from <= to <= text@.len(),
        to - from <= 10,
        forall|i: int| from <= i < to ==> is_digit(#[trigger] text@[i]),
    ensures
        number == number_at(text@, from as int, to as int),
{
    let mut number: u64 = 0;
    let mut i: usize = from;
    while i < to
        invariant
            from <= i <= to <= text@.len(),
            to - from <= 10,
            forall|k: int| from <= k < to ==> is_digit(#[trigger] text@[k]),
            number == number_at(text@, from as int, i as int),
            number < pow10((i - from) as nat),
        decreases to - i,
    {
        proof {
            lemma_pow10_grows((i - from) as nat, 10);
            assert(pow10(10) == 10_000_000_000) by {
                reveal_with_fuel(pow10, 11);
            }
            assert(pow10((i + 1 - from) as nat) == 10 * pow10((i - from) as nat));
        }
        number = number * 10 + (text[i] - 48) as u64;
        i += 1;
    }
    number
}

/// Whether a text has the shape of a stored password hash.
pub fn is_hash_text(text: &[u8]) -> (ok: bool)
    ensures
        ok == hash_shaped(text@),
{
    if text.len() > TEXT_MAX {
        return false;
    }
    let variant = skip_variant(text, skip_word(text, Some(0), "$argon2"));
    let memory_from = skip_word(text, variant, "$m=");
    let memory_to = skip_run(text, memory_from, true, 1, 10);
    let time_to = skip_run(text, skip_word(text, memory_to, ",t="), true, 1, 10);
    let lanes_from = skip_word(text, time_to, ",p=");
    let lanes_to = skip_run(text, lanes_from, true, 1, 10);
    let extras = skip_key_and_data(text, lanes_to);
    let salt = skip_run(text, skip_word(text, extras, "$"), false, SALT_TEXT_MIN, TEXT_MAX);
    let end = skip_run(text, skip_word(text, salt, "$"), false, 1, TEXT_MAX);
    match (end, memory_from, memory_to, lanes_from, lanes_to) {
        (Some(e), Some(m0), Some(m1), Some(p0), Some(p1)) => {
            proof {
                lemma_run_holds_class(text@, m0 as int, true);
                lemma_run_holds_class(text@, p0 as int, true);
            }
            e == text.len() && decimal(text, m0, m1) <= MEMORY_KIB_MAX && decimal(text, p0, p1)
                <= LANES_MAX
        },
        _ => false,
    }
}

} // verus!
