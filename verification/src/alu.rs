use vstd::prelude::*;

verus! {

/// Results of arithmetic are reduced modulo this number, so they fit in 15 bits.
pub const MODULUS: u32 = 32768;

/// Mask that keeps the low 15 bits of a word.
pub const VALUE_MASK: u16 = 0x7fff;

/// Sum of two words, reduced modulo 32768.
pub open spec fn sum_of(a: u16, b: u16) -> u16 {
    ((a + b) % 32768) as u16
}

/// Product of two words, reduced modulo 32768.
pub open spec fn product_of(a: u16, b: u16) -> u16 {
    ((a * b) % 32768) as u16
}

/// Remainder of `a` divided by `b`; meaningful for a nonzero `b` only.
pub open spec fn remainder_of(a: u16, b: u16) -> u16 {
    (a % b) as u16
}

/// Bitwise and of the low 15 bits of two words.
pub open spec fn and_of(a: u16, b: u16) -> u16 {
    (a & b) & 0x7fff
}

/// Bitwise or of the low 15 bits of two words.
pub open spec fn or_of(a: u16, b: u16) -> u16 {
    (a | b) & 0x7fff
}

/// Bitwise complement of a word, kept to its low 15 bits.
pub open spec fn not_of(a: u16) -> u16 {
    (!a) & 0x7fff
}

/// Low eight bits of a word.
pub open spec fn low_byte_of(a: u16) -> u8 {
    (a % 256) as u8
}

/// Adds two words and wraps the sum modulo 32768.
pub fn add_words(a: u16, b: u16) -> (result: u16)
    ensures
        result == sum_of(a, b),
        result == (a + b) % 32768,
        result <= 32767,
{
    let wide: u32 = a as u32 + b as u32;
    (wide % MODULUS) as u16
}

/// Multiplies two words and wraps the product modulo 32768. The product is
/// formed in 32 bits, where it cannot overflow.
pub fn mult_words(a: u16, b: u16) -> (result: u16)
    ensures
        result == product_of(a, b),
        result == (a * b) % 32768,
        result <= 32767,
{
    assert(a * b <= 65535 * 65535) by (nonlinear_arith)
        requires
            0 <= a <= 65535,
            0 <= b <= 65535,
    ;
    let wide: u32 = a as u32 * b as u32;
    (wide % MODULUS) as u16
}

/// Remainder of `a` divided by `b`, or `None` when `b` is zero.
pub fn mod_words(a: u16, b: u16) -> (result: Option<u16>)
    ensures
        b == 0 <==> result is None,
        b != 0 ==> result == Some(remainder_of(a, b)),
        b != 0 ==> result == Some((a % b) as u16),
{
    if b == 0 {
        None
    } else {
        Some(a % b)
    }
}

/// Bitwise and of two words, on their low 15 bits.
pub fn and_words(a: u16, b: u16) -> (result: u16)
    ensures
        result == and_of(a, b),
        result <= 32767,
{
    let result: u16 = (a & b) & VALUE_MASK;
    assert((a & b) & 0x7fff <= 32767) by (bit_vector);
    result
}

/// Bitwise or of two words, on their low 15 bits.
pub fn or_words(a: u16, b: u16) -> (result: u16)
    ensures
        result == or_of(a, b),
        result <= 32767,
{
    let result: u16 = (a | b) & VALUE_MASK;
    assert((a | b) & 0x7fff <= 32767) by (bit_vector);
    result
}

/// Bitwise complement of a word, masked to 15 bits.
pub fn not_word(a: u16) -> (result: u16)
    ensures
        result == not_of(a),
        result <= 32767,
{
    let result: u16 = (!a) & VALUE_MASK;
    assert((!a) & 0x7fff <= 32767) by (bit_vector);
    result
}

/// The low eight bits of a word.
pub fn low_byte(a: u16) -> (result: u8)
    ensures
        result == low_byte_of(a),
        result == a % 256,
{
    (a % 256) as u8
}

/// Sums, products, conjunctions, disjunctions and complements always fit in
/// 15 bits, whatever the operands.
pub proof fn lemma_results_fit_15_bits(a: u16, b: u16)
    ensures
        sum_of(a, b) <= 32767,
        product_of(a, b) <= 32767,
        and_of(a, b) <= 32767,
        or_of(a, b) <= 32767,
        not_of(a) <= 32767,
        sum_of(a, b) == (a + b) % 32768,
        product_of(a, b) == (a * b) % 32768,
{
    assert((a & b) & 0x7fff <= 32767) by (bit_vector);
    assert((a | b) & 0x7fff <= 32767) by (bit_vector);
    assert((!a) & 0x7fff <= 32767) by (bit_vector);
    assert(0 <= a * b) by (nonlinear_arith)
        requires
            0 <= a,
            0 <= b,
    ;
}

/// On operands that already fit in 15 bits, masking changes nothing: the
/// conjunction and the disjunction are the plain bitwise ones, and the
/// complement flips exactly the low 15 bits.
pub proof fn lemma_bitwise_on_values(a: u16, b: u16)
    requires
        a <= 32767,
        b <= 32767,
    ensures
        and_of(a, b) == a & b,
        or_of(a, b) == a | b,
        not_of(a) == 32767 - a,
{
    assert(a <= 32767 && b <= 32767 ==> (a & b) & 0x7fff == a & b) by (bit_vector);
    assert(a <= 32767 && b <= 32767 ==> (a | b) & 0x7fff == a | b) by (bit_vector);
    assert(a <= 32767 ==> (!a) & 0x7fff == 32767 - a) by (bit_vector);
}

} // verus!
