//! Hexadecimal text: byte strings, unpadded numbers, and reading them back.
use vstd::prelude::*;

verus! {

/// The hex digit for `d < 16`, in lower or upper case.
pub open spec fn hex_char(d: nat, upper: bool) -> char {
    if d < 10 {
        ((d + 48) as u8) as char
    } else if upper {
        ((d + 55) as u8) as char
    } else {
        ((d + 87) as u8) as char
    }
}

/// Two lowercase digits per byte, most significant nibble first, no separators.
pub open spec fn hex_of(bytes: Seq<u8>) -> Seq<char>
    decreases bytes.len(),
{
    if bytes.len() == 0 {
        seq![]
    } else {
        let b = bytes.last();
        hex_of(bytes.drop_last()) + seq![hex_char(b as nat / 16, false), hex_char(b as nat % 16, false)]
    }
}

/// The digits of `n` in base 16 without leading zeros (`0` is one digit).
pub open spec fn hex_digits(n: nat, upper: bool) -> Seq<char>
    decreases n,
{
    if n < 16 {
        seq![hex_char(n, upper)]
    } else {
        hex_digits(n / 16, upper).push(hex_char(n % 16, upper))
    }
}

/// Whether `c` is a lowercase hex digit.
pub open spec fn is_lower_hex(c: char) -> bool {
    ('0' <= c && c <= '9') || ('a' <= c && c <= 'f')
}

/// The value of a lowercase hex digit.
pub open spec fn digit_value(c: char) -> nat {
    if '0' <= c && c <= '9' {
        (c as nat - 48) as nat
    } else {
        (c as nat - 87) as nat
    }
}

/// The number that a run of lowercase hex digits denotes (0 for no digits).
pub open spec fn hex_value(s: Seq<char>) -> nat
    decreases s.len(),
{
    if s.len() == 0 {
        0
    } else {
        hex_value(s.drop_last()) * 16 + digit_value(s.last())
    }
}

/// Relies on `String::push`: appends one character at the end.
#[verifier::external_body]
pub(crate) fn push_char(s: &mut String, c: char)
    ensures
        final(s)@ == old(s)@.push(c),
{
    s.push(c);
}

fn digit_char(d: u8, upper: bool) -> (c: char)
    requires
        d < 16,
    ensures
        c == hex_char(d as nat, upper),
{
    if d < 10 {
        (d + 48) as char
    } else if upper {
        (d + 55) as char
    } else {
        (d + 87) as char
    }
}

/// Encodes bytes as lowercase hex, two digits per byte.
pub fn hex_encode(bytes: &[u8]) -> (r: String)
    ensures
        r@ == hex_of(bytes@),
        r@.len() == 2 * bytes@.len(),
{
    let mut r = String::new();
    let mut i: usize = 0;
    while i < bytes.len()
        invariant
            i <= bytes@.len(),
            r@ == hex_of(bytes@.subrange(0, i as int)),
            r@.len() == 2 * i,
        decreases bytes@.len() - i,
    {
        let b = bytes[i];
        push_char(&mut r, digit_char(b / 16, false));
        push_char(&mut r, digit_char(b % 16, false));
        proof {
            let s = bytes@.subrange(0, i + 1);
            assert(s.drop_last() =~= bytes@.subrange(0, i as int));
            assert(s.last() == b);
        }
        i = i + 1;
    }
    assert(bytes@.subrange(0, bytes@.len() as int) =~= bytes@);
    r
}

/// Appends the unpadded base-16 digits of `n`.
pub fn push_hex_digits(s: &mut String, n: u64, upper: bool)
    ensures
        final(s)@ == old(s)@ + hex_digits(n as nat, upper),
    decreases n,
{
    if n >= 16 {
        push_hex_digits(s, n / 16, upper);
    }
    push_char(s, digit_char((n % 16) as u8, upper));
    proof {
        if n < 16 {
            assert(hex_digits(n as nat, upper) == seq![hex_char(n as nat, upper)]);
        }
    }
    assert(s@ =~= old(s)@ + hex_digits(n as nat, upper));
}


/// A non-empty run of lowercase hex digits whose value fits in 64 bits.
pub open spec fn is_hex_u64(s: Seq<char>) -> bool {
    &&& s.len() > 0
    &&& forall|i: int| 0 <= i < s.len() ==> is_lower_hex(#[trigger] s[i])
    &&& hex_value(s) <= u64::MAX
}

proof fn lemma_hex_value_prefix_monotone(s: Seq<char>, i: int, j: int)
    requires
        0 <= i <= j <= s.len(),
    ensures
        hex_value(s.take(i)) <= hex_value(s.take(j)),
    decreases j - i,
{
    if i < j {
        lemma_hex_value_prefix_monotone(s, i, j - 1);
        assert(s.take(j).drop_last() =~= s.take(j - 1));
    }
}

/// Reads a run of lowercase hex digits as a 64-bit number.
pub fn parse_hex_u64(digits: &str) -> (r: Option<u64>)
    ensures
        r == (if is_hex_u64(digits@) {
            Some(hex_value(digits@) as u64)
        } else {
            None::<u64>
        }),
{
    let n = digits.unicode_len();
    if n == 0 {
        return None;
    }
    let mut acc: u64 = 0;
    let mut i: usize = 0;
    while i < n
        invariant
            n == digits@.len(),
            i <= n,
            acc == hex_value(digits@.take(i as int)),
            forall|k: int| 0 <= k < i ==> is_lower_hex(#[trigger] digits@[k]),
        decreases n - i,
    {
        let c = digits.get_char(i);
        let u = c as u32;
        let d: u64;
        if 48 <= u && u <= 57 {
            d = (u - 48) as u64;
        } else if 97 <= u && u <= 102 {
            d = (u - 87) as u64;
        } else {
            return None;
        }
        assert(digits@.take(i + 1).drop_last() =~= digits@.take(i as int));
        if acc > 0x0FFF_FFFF_FFFF_FFFF {
            proof {
                lemma_hex_value_prefix_monotone(digits@, i + 1, n as int);
                assert(digits@.take(n as int) =~= digits@);
            }
            return None;
        }
        acc = acc * 16 + d;
        i = i + 1;
    }
    assert(digits@.take(n as int) =~= digits@);
    Some(acc)
}

} // verus!
