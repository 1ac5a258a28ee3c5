//! A reversible XOR mask over the bit pattern of a binary64 value.
//!
//! This hides a value from casual reading only; it gives no confidentiality.
use crate::hex::{
    digit_value, hex_char, hex_digits, hex_value, is_hex_u64, is_lower_hex, parse_hex_u64,
    push_char, push_hex_digits,
};
use vstd::prelude::*;

verus! {

/// The fixed mask.
pub const OBFUSCATION_MASK: u64 = 0x5A5A_A5A5_F0F0_0F0F;

/// `0x` followed by the unpadded lowercase hex digits of the masked pattern.
pub open spec fn obfuscated_text(bits: u64) -> Seq<char> {
    seq!['0', 'x'] + hex_digits((bits ^ OBFUSCATION_MASK) as nat, false)
}

/// What reading a masked text back yields: the unmasked pattern when the text
/// is `0x` and a run of lowercase hex digits that fits in 64 bits, else nothing.
pub open spec fn recovered(text: Seq<char>) -> Option<u64> {
    let digits = text.subrange(2, text.len() as int);
    if text.len() >= 2 && text[0] == '0' && text[1] == 'x' && is_hex_u64(digits) {
        Some((hex_value(digits) as u64) ^ OBFUSCATION_MASK)
    } else {
        None
    }
}

/// Masks the bit pattern of a binary64 value and renders it as `0x...`.
pub fn secure_obfuscation(bits: u64) -> (r: String)
    ensures
        r@ == obfuscated_text(bits),
{
    let mut r = String::new();
    push_char(&mut r, '0');
    push_char(&mut r, 'x');
    push_hex_digits(&mut r, bits ^ OBFUSCATION_MASK, false);
    assert(r@ =~= obfuscated_text(bits));
    r
}

/// Reads a masked text back and removes the mask.
pub fn recover_bits(text: &str) -> (r: Option<u64>)
    ensures
        r == recovered(text@),
{
    let n = text.unicode_len();
    if n < 2 || text.get_char(0) != '0' || text.get_char(1) != 'x' {
        return None;
    }
    match parse_hex_u64(text.substring_char(2, n)) {
        Some(v) => Some(v ^ OBFUSCATION_MASK),
        None => None,
    }
}

proof fn lemma_hex_char_value(d: nat)
    requires
        d < 16,
    ensures
        is_lower_hex(hex_char(d, false)),
        digit_value(hex_char(d, false)) == d,
{
}

proof fn lemma_hex_digits_value(n: nat)
    ensures
        hex_digits(n, false).len() > 0,
        forall|i: int|
            0 <= i < hex_digits(n, false).len() ==> is_lower_hex(#[trigger] hex_digits(n, false)[i]),
        hex_value(hex_digits(n, false)) == n,
    decreases n,
{
    lemma_hex_char_value(n % 16);
    if n >= 16 {
        lemma_hex_digits_value(n / 16);
        let s = hex_digits(n, false);
        assert(s.drop_last() =~= hex_digits(n / 16, false));
    } else {
        assert(hex_value(seq![hex_char(n, false)]) == hex_value(seq![hex_char(n, false)].drop_last()) * 16
            + digit_value(hex_char(n, false)));
        assert(seq![hex_char(n, false)].drop_last() =~= Seq::<char>::empty());
    }
}

/// Reading back a masked text gives the bit pattern that was masked.
pub proof fn lemma_obfuscation_round_trip(bits: u64)
    ensures
        recovered(obfuscated_text(bits)) == Some(bits),
{
    let m = bits ^ OBFUSCATION_MASK;
    let text = obfuscated_text(bits);
    lemma_hex_digits_value(m as nat);
    assert(text.subrange(2, text.len() as int) =~= hex_digits(m as nat, false));
    assert((m ^ OBFUSCATION_MASK) == bits) by (bit_vector)
        requires
            m == bits ^ 0x5A5A_A5A5_F0F0_0F0Fu64,
    ;
}

} // verus!
