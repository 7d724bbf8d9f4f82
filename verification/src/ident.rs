//! Identifiers of things and actions: UUIDs, held as 128-bit numbers.
use uuid::Uuid;
use vstd::arithmetic::div_mod::{lemma_basic_div, lemma_div_denominator, lemma_fundamental_div_mod};
use vstd::arithmetic::power::{lemma_pow_adds, lemma_pow_positive, pow};
use vstd::prelude::*;

verus! {

/// The lower-case hexadecimal digit `d`, which is below sixteen.
pub open spec fn hex_char(d: int) -> char {
    if d < 10 {
        (48 + d) as char
    } else {
        (87 + d) as char
    }
}

/// The `k`th of the 32 hexadecimal digits of `id`, counted from the most significant one.
pub open spec fn hex_digit(id: u128, k: int) -> int {
    (id as int / pow(16, (31 - k) as nat)) % 16
}

/// Where in the hyphenated form a hyphen stands.
pub open spec fn is_hyphen(i: int) -> bool {
    i == 8 || i == 13 || i == 18 || i == 23
}

/// How many hyphens stand before position `i` of the hyphenated form.
pub open spec fn hyphens_before(i: int) -> int {
    if i <= 8 {
        0
    } else if i <= 13 {
        1
    } else if i <= 18 {
        2
    } else if i <= 23 {
        3
    } else {
        4
    }
}

/// The hyphenated form of `id`: 32 hexadecimal digits in groups of 8, 4, 4, 4 and 12.
pub open spec fn hyphenated_text(id: u128) -> Seq<char> {
    Seq::new(
        36,
        |i: int|
            if is_hyphen(i) {
                '-'
            } else {
                hex_char(hex_digit(id, i - hyphens_before(i)))
            },
    )
}

/// Whether `id` has the version and the variant of a random UUID.
pub open spec fn is_random(id: u128) -> bool {
    &&& hex_digit(id, 12) == 4
    &&& 8 <= hex_digit(id, 16) < 12
}

/// Sixteen to the power of 32 exceeds every 128-bit number.
proof fn lemma_hex_digits_suffice(id: u128)
    ensures
        id as int / pow(16, 32) == 0,
{
    assert(pow(16, 8) == 0x1_0000_0000) by {
        reveal_with_fuel(pow, 9);
    }
    lemma_pow_adds(16, 8, 8);
    lemma_pow_adds(16, 16, 16);
    assert(pow(16, 32) == 0x1_0000_0000int * 0x1_0000_0000 * (0x1_0000_0000int * 0x1_0000_0000));
    lemma_basic_div(id as int, pow(16, 32));
}

/// Numbers with equal digits from the `j`th least significant one upwards agree above it.
proof fn lemma_equal_digits(a: u128, b: u128, j: nat)
    requires
        j <= 32,
        forall|k: int| 0 <= k < 32 ==> #[trigger] hex_digit(a, k) == hex_digit(b, k),
    ensures
        a as int / pow(16, j) == b as int / pow(16, j),
    decreases 32 - j,
{
    if j == 32 {
        lemma_hex_digits_suffice(a);
        lemma_hex_digits_suffice(b);
    } else {
        lemma_equal_digits(a, b, j + 1);
        reveal(pow);
        lemma_pow_positive(16, j);
        assert(pow(16, j + 1) == pow(16, j) * 16) by (nonlinear_arith)
            requires
                pow(16, j + 1) == 16 * pow(16, j),
        ;
        lemma_div_denominator(a as int, pow(16, j), 16);
        lemma_div_denominator(b as int, pow(16, j), 16);
        lemma_fundamental_div_mod(a as int / pow(16, j), 16);
        lemma_fundamental_div_mod(b as int / pow(16, j), 16);
        assert(hex_digit(a, 31 - j) == hex_digit(b, 31 - j));
    }
}

/// Different identifiers have different hyphenated forms.
pub proof fn law_hyphenated_text_is_injective(a: u128, b: u128)
    requires
        hyphenated_text(a) == hyphenated_text(b),
    ensures
        a == b,
{
    assert forall|k: int| 0 <= k < 32 implies #[trigger] hex_digit(a, k) == hex_digit(b, k) by {
        let i = if k < 8 {
            k
        } else if k < 12 {
            k + 1
        } else if k < 16 {
            k + 2
        } else if k < 20 {
            k + 3
        } else {
            k + 4
        };
        assert(hyphenated_text(a)[i] == hex_char(hex_digit(a, k)));
        assert(hyphenated_text(b)[i] == hex_char(hex_digit(b, k)));
        assert(0 <= hex_digit(a, k) < 16 && 0 <= hex_digit(b, k) < 16);
    }
    lemma_equal_digits(a, b, 0);
    reveal(pow);
}

/// Draws a UUID with `uuid::Uuid::new_v4`. Of the drawn number only the version and the variant
/// are claimed, which are those of a random UUID.
#[verifier::external_body]
pub(crate) fn new_v4() -> (id: u128)
    ensures
        is_random(id),
{
    Uuid::new_v4().as_u128()
}

/// Writes `id` with the `Display` of `uuid::Uuid`, which is the hyphenated form in lower case.
#[verifier::external_body]
pub(crate) fn hyphenated(id: u128) -> (text: String)
    ensures
        text@ == hyphenated_text(id),
{
    Uuid::from_u128(id).to_string()
}

/// Writes `id` with the `Display` of `uuid::fmt::Urn`, which puts `urn:uuid:` before the
/// hyphenated form.
#[verifier::external_body]
pub(crate) fn urn(id: u128) -> (text: String)
    ensures
        text@ == "urn:uuid:"@ + hyphenated_text(id),
{
    Uuid::from_u128(id).urn().to_string()
}

/// The hyphenated form has 36 characters: hyphens where the groups end, and hexadecimal digits in
/// lower case otherwise.
pub proof fn law_hyphenated_text_has_its_form(id: u128)
    ensures
        hyphenated_text(id).len() == 36,
        forall|i: int|
            0 <= i < 36 ==> if i == 8 || i == 13 || i == 18 || i == 23 {
                #[trigger] hyphenated_text(id)[i] == '-'
            } else {
                '0' <= hyphenated_text(id)[i] <= '9' || 'a' <= hyphenated_text(id)[i] <= 'f'
            },
{
    assert forall|i: int| 0 <= i < 36 implies if i == 8 || i == 13 || i == 18 || i == 23 {
        #[trigger] hyphenated_text(id)[i] == '-'
    } else {
        '0' <= hyphenated_text(id)[i] <= '9' || 'a' <= hyphenated_text(id)[i] <= 'f'
    } by {
        if !is_hyphen(i) {
            let d = hex_digit(id, i - hyphens_before(i));
            assert(0 <= d < 16);
            assert(hyphenated_text(id)[i] == hex_char(d));
        }
    }
}

} // verus!
