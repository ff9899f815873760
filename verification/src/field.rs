//! Elements of the Stark prime field, held as 32 big-endian bytes.
//!
//! [`Felt`] is the library's own value type. Its view is the natural number
//! that the bytes spell out, and every value that executable code can hold is
//! canonical: smaller than the field's modulus.

use vstd::arithmetic::power::pow;
use vstd::arithmetic::power2::pow2;
use vstd::prelude::*;

verus! {

/// The field's modulus, `2^251 + 17 * 2^192 + 1`.
pub open spec fn field_prime() -> nat {
    0x800000000000011000000000000000000000000000000000000000000000001nat
}

/// The number that a sequence of bytes spells out, most significant byte first.
pub open spec fn be_value(bytes: Seq<u8>) -> nat
    decreases bytes.len(),
{
    if bytes.len() == 0 {
        0
    } else {
        256 * be_value(bytes.drop_last()) + bytes.last() as nat
    }
}

/// One step of the expansion of [`be_value`] over a prefix of `s`.
pub proof fn lemma_be_value_take(s: Seq<u8>, k: int)
    requires
        0 < k <= s.len(),
    ensures
        be_value(s.take(k)) == 256 * be_value(s.take(k - 1)) + s[k - 1] as nat,
{
    assert(s.take(k).drop_last() =~= s.take(k - 1));
}

/// Zero bytes in front do not change the value.
pub proof fn lemma_be_value_padded(zeros: Seq<u8>, s: Seq<u8>)
    requires
        forall|i: int| 0 <= i < zeros.len() ==> zeros[i] == 0,
    ensures
        be_value(zeros + s) == be_value(s),
    decreases zeros.len() + s.len(),
{
    if s.len() > 0 {
        assert((zeros + s).drop_last() =~= zeros + s.drop_last());
        lemma_be_value_padded(zeros, s.drop_last());
    } else if zeros.len() > 0 {
        assert(zeros + s =~= zeros);
        assert(zeros.drop_last() + s =~= zeros.drop_last());
        lemma_be_value_padded(zeros.drop_last(), s);
    } else {
        assert(zeros + s =~= s);
    }
}

/// Two byte sequences of one length that spell the same number are the same.
pub proof fn lemma_be_value_injective(a: Seq<u8>, b: Seq<u8>)
    requires
        a.len() == b.len(),
        be_value(a) == be_value(b),
    ensures
        a == b,
    decreases a.len(),
{
    if a.len() > 0 {
        lemma_be_value_injective(a.drop_last(), b.drop_last());
        assert(a =~= a.drop_last().push(a.last()));
        assert(b =~= b.drop_last().push(b.last()));
    } else {
        assert(a =~= b);
    }
}

/// The value of eight bytes starting at `at`, as one 64-bit limb.
pub open spec fn limb_at(s: Seq<u8>, at: int) -> nat {
    (s[at] as nat) * 0x100000000000000
        + (s[at + 1] as nat) * 0x1000000000000
        + (s[at + 2] as nat) * 0x10000000000
        + (s[at + 3] as nat) * 0x100000000
        + (s[at + 4] as nat) * 0x1000000
        + (s[at + 5] as nat) * 0x10000
        + (s[at + 6] as nat) * 0x100
        + (s[at + 7] as nat)
}

/// Appending eight bytes shifts the value by one limb.
pub proof fn lemma_be_value_limb(s: Seq<u8>, k: int)
    requires
        0 <= k,
        k + 8 <= s.len(),
    ensures
        be_value(s.take(k + 8)) == 0x10000000000000000nat * be_value(s.take(k)) + limb_at(s, k),
{
    lemma_be_value_take(s, k + 1);
    lemma_be_value_take(s, k + 2);
    lemma_be_value_take(s, k + 3);
    lemma_be_value_take(s, k + 4);
    lemma_be_value_take(s, k + 5);
    lemma_be_value_take(s, k + 6);
    lemma_be_value_take(s, k + 7);
    lemma_be_value_take(s, k + 8);
}

/// Thirty-two bytes are four limbs.
pub proof fn lemma_be_value_32(s: Seq<u8>)
    requires
        s.len() == 32,
    ensures
        be_value(s) == limb_at(s, 0) * 0x1000000000000000000000000000000000000000000000000nat
            + limb_at(s, 8) * 0x100000000000000000000000000000000nat
            + limb_at(s, 16) * 0x10000000000000000nat
            + limb_at(s, 24),
{
    assert(s.take(32) =~= s);
    assert(s.take(0) =~= Seq::<u8>::empty());
    lemma_be_value_limb(s, 0);
    lemma_be_value_limb(s, 8);
    lemma_be_value_limb(s, 16);
    lemma_be_value_limb(s, 24);
}

/// The number that four 64-bit limbs spell out, most significant first.
pub open spec fn limbs_value(l3: u64, l2: u64, l1: u64, l0: u64) -> nat {
    (l3 as nat) * 0x1000000000000000000000000000000000000000000000000nat
        + (l2 as nat) * 0x100000000000000000000000000000000nat
        + (l1 as nat) * 0x10000000000000000nat
        + (l0 as nat)
}

/// Byte `k` of a limb, counted from the least significant one.
pub open spec fn spec_byte_of(l: u64, k: u64) -> u8 {
    ((l >> (8 * k)) & 0xff) as u8
}

/// Computes byte `k` of a limb.
#[verifier::when_used_as_spec(spec_byte_of)]
fn byte_of(l: u64, k: u64) -> (b: u8)
    requires
        k < 8,
    ensures
        b == spec_byte_of(l, k),
{
    assert((l >> (8 * k)) & 0xff < 256) by (bit_vector);
    ((l >> (8 * k)) & 0xff) as u8
}

/// A limb is the sum of its eight bytes, each at its weight.
proof fn lemma_limb_bytes(l: u64)
    ensures
        l as nat == (spec_byte_of(l, 7) as nat) * 0x100000000000000
            + (spec_byte_of(l, 6) as nat) * 0x1000000000000
            + (spec_byte_of(l, 5) as nat) * 0x10000000000
            + (spec_byte_of(l, 4) as nat) * 0x100000000
            + (spec_byte_of(l, 3) as nat) * 0x1000000
            + (spec_byte_of(l, 2) as nat) * 0x10000
            + (spec_byte_of(l, 1) as nat) * 0x100
            + (spec_byte_of(l, 0) as nat),
{
    let b7 = (l >> 56) & 0xff;
    let b6 = (l >> 48) & 0xff;
    let b5 = (l >> 40) & 0xff;
    let b4 = (l >> 32) & 0xff;
    let b3 = (l >> 24) & 0xff;
    let b2 = (l >> 16) & 0xff;
    let b1 = (l >> 8) & 0xff;
    let b0 = (l >> 0) & 0xff;
    assert(b7 < 256 && b6 < 256 && b5 < 256 && b4 < 256 && b3 < 256 && b2 < 256 && b1 < 256
        && b0 < 256 && l == b7 * 0x100000000000000 + b6 * 0x1000000000000 + b5 * 0x10000000000
        + b4 * 0x100000000 + b3 * 0x1000000 + b2 * 0x10000 + b1 * 0x100 + b0) by (bit_vector)
        requires
            b7 == (l >> 56) & 0xff,
            b6 == (l >> 48) & 0xff,
            b5 == (l >> 40) & 0xff,
            b4 == (l >> 32) & 0xff,
            b3 == (l >> 24) & 0xff,
            b2 == (l >> 16) & 0xff,
            b1 == (l >> 8) & 0xff,
            b0 == (l >> 0) & 0xff,
    ;
}

/// An element of the Stark prime field.
#[derive(Clone, Copy, Debug, PartialEq, Eq, Hash)]
pub struct Felt {
    pub(crate) bytes: [u8; 32],
}

impl View for Felt {
    type V = nat;

    closed spec fn view(&self) -> nat {
        be_value(self.bytes@)
    }
}

impl Felt {
    /// The big-endian bytes that spell the element out.
    pub closed spec fn spec_bytes(self) -> Seq<u8> {
        self.bytes@
    }

    /// Every element is canonical: it lies below the modulus.
    #[verifier::type_invariant]
    pub open spec fn canonical(self) -> bool {
        self@ < field_prime()
    }

    /// The element whose four 64-bit limbs are given, most significant first.
    pub(crate) fn from_limbs(l3: u64, l2: u64, l1: u64, l0: u64) -> (r: Felt)
        requires
            limbs_value(l3, l2, l1, l0) < field_prime(),
        ensures
            r@ == limbs_value(l3, l2, l1, l0),
    {
        let bytes = [
            byte_of(l3, 7), byte_of(l3, 6), byte_of(l3, 5), byte_of(l3, 4),
            byte_of(l3, 3), byte_of(l3, 2), byte_of(l3, 1), byte_of(l3, 0),
            byte_of(l2, 7), byte_of(l2, 6), byte_of(l2, 5), byte_of(l2, 4),
            byte_of(l2, 3), byte_of(l2, 2), byte_of(l2, 1), byte_of(l2, 0),
            byte_of(l1, 7), byte_of(l1, 6), byte_of(l1, 5), byte_of(l1, 4),
            byte_of(l1, 3), byte_of(l1, 2), byte_of(l1, 1), byte_of(l1, 0),
            byte_of(l0, 7), byte_of(l0, 6), byte_of(l0, 5), byte_of(l0, 4),
            byte_of(l0, 3), byte_of(l0, 2), byte_of(l0, 1), byte_of(l0, 0),
        ];
        proof {
            lemma_be_value_32(bytes@);
            lemma_limb_bytes(l3);
            lemma_limb_bytes(l2);
            lemma_limb_bytes(l1);
            lemma_limb_bytes(l0);
        }
        Felt { bytes }
    }

    /// Two elements with the same value are the same element.
    pub proof fn lemma_view_injective(a: Felt, b: Felt)
        requires
            a@ == b@,
        ensures
            a == b,
    {
        lemma_be_value_injective(a.bytes@, b.bytes@);
        assert(a.bytes =~= b.bytes);
    }

    /// The element 0.
    pub fn zero() -> (r: Felt)
        ensures
            r@ == 0,
    {
        let bytes = [0u8; 32];
        proof {
            lemma_be_value_32(bytes@);
        }
        Felt { bytes }
    }

    /// The element 1.
    pub fn one() -> (r: Felt)
        ensures
            r@ == 1,
    {
        Felt::from_limbs(0, 0, 0, 1)
    }

    /// The largest element, one below the modulus.
    pub fn max() -> (r: Felt)
        ensures
            r@ == field_prime() - 1,
    {
        Felt::from_limbs(0x0800000000000011, 0, 0, 0)
    }

    /// The element with the value of `n`.
    pub fn from_u64(n: u64) -> (r: Felt)
        ensures
            r@ == n,
    {
        Felt::from_limbs(0, 0, 0, n)
    }

    /// The element with the value of `n`.
    pub fn from_u32(n: u32) -> (r: Felt)
        ensures
            r@ == n,
    {
        Felt::from_limbs(0, 0, 0, n as u64)
    }

    /// The element that `bytes` spell out, most significant byte first.
    /// More than 32 bytes are too many, and a number that is not below the
    /// modulus is out of range.
    pub fn from_bytes_be(bytes: &[u8]) -> (r: Result<Felt, FeltError>)
        ensures
            match r {
                Ok(f) => bytes@.len() <= 32 && f@ == be_value(bytes@),
                Err(FeltError::InvalidLength) => bytes@.len() > 32,
                Err(FeltError::OutOfRange) => bytes@.len() <= 32 && be_value(bytes@)
                    >= field_prime(),
            },
    {
        field_from_byte_slice_be(bytes)
    }

    /// The element that 31 bytes spell out, most significant byte first.
    /// Whatever the bytes are, the number lies below the modulus.
    pub fn from_bytes_31(bytes: &[u8; 31]) -> (r: Felt)
        ensures
            r@ == be_value(bytes@),
            r@ < 0x100000000000000000000000000000000000000000000000000000000000000nat,
    {
        let mut padded = [0u8; 32];
        let mut i: usize = 0;
        while i < 31
            invariant
                i <= 31,
                padded@[0] == 0,
                forall|k: int| 0 <= k < i ==> padded@[k + 1] == bytes@[k],
            decreases 31 - i,
        {
            padded[i + 1] = bytes[i];
            i += 1;
        }
        proof {
            assert(padded@ =~= seq![0u8] + bytes@);
            lemma_be_value_padded(seq![0u8], bytes@);
            lemma_be_value_32(padded@);
        }
        Felt { bytes: padded }
    }

    /// The element that a text in hexadecimal spells out, with or without
    /// `0x` in front, or `None` where the text is no such number or the
    /// number is not below the modulus.
    pub fn from_hex_be(text: &str) -> (r: Option<Felt>)
        ensures
            match r {
                Some(f) => hex_be_value(text@) == Some(f@),
                None => hex_be_value(text@) is None,
            },
    {
        field_from_hex_be(text)
    }

    /// The 32 bytes that spell the element out, most significant byte first.
    pub fn to_bytes_be(&self) -> (r: [u8; 32])
        ensures
            r@ == self.spec_bytes(),
            be_value(r@) == self@,
    {
        self.bytes
    }

    /// The element in hexadecimal: `0x` and 64 digits, most significant
    /// first, with leading zeros.
    pub fn to_hex(&self) -> (r: String)
        ensures
            r@ == hex_text(self@),
    {
        field_to_hex(self)
    }

    /// The 256 bits of the element, least significant first.
    pub fn to_bits_le(&self) -> (bits: [bool; 256])
        ensures
            forall|i: int| 0 <= i < 256 ==> bits@[i] == bit_of(self@, i as nat),
    {
        field_to_bits_le(self)
    }
}

/// Bit `i` of `v`, counted from the least significant one.
pub open spec fn bit_of(v: nat, i: nat) -> bool {
    (v / pow2(i)) % 2 == 1
}

/// The hexadecimal digit for a number below 16, in lower case.
pub open spec fn hex_digit(n: nat) -> char {
    if n < 10 {
        (0x30 + n) as u8 as char
    } else {
        (0x57 + n) as u8 as char
    }
}

/// Hexadecimal digit `i` of `v`, counted from the least significant one.
pub open spec fn nibble_of(v: nat, i: nat) -> nat {
    ((v / pow(16, i) as nat) % 16) as nat
}

/// A number in hexadecimal: `0x` and 64 digits, most significant first.
pub open spec fn hex_text(v: nat) -> Seq<char> {
    seq!['0', 'x'] + Seq::new(64, |i: int| hex_digit(nibble_of(v, (63 - i) as nat)))
}

/// The number that `FieldElement::from_hex_be` reads from a text, or `None`
/// where it reads none.
pub uninterp spec fn hex_be_value(text: Seq<char>) -> Option<nat>;

/// Why a sequence of bytes is not a field element.
#[derive(Clone, Copy, Debug, PartialEq, Eq, Structural)]
pub enum FeltError {
    /// There are more than 32 bytes.
    InvalidLength,
    /// The number is not below the modulus.
    OutOfRange,
}

/// Calls `FieldElement::from_byte_slice_be`.
///
/// Trusted: the call succeeds exactly when there are at most 32 bytes and the
/// big-endian number they spell is below the modulus, and then yields that
/// number; each of its two errors is reported under the condition that its
/// name gives.
#[verifier::external_body]
pub(crate) fn field_from_byte_slice_be(bytes: &[u8]) -> (r: Result<Felt, FeltError>)
    ensures
        match r {
            Ok(f) => bytes@.len() <= 32 && be_value(bytes@) < field_prime() && f@ == be_value(
                bytes@,
            ),
            Err(FeltError::InvalidLength) => bytes@.len() > 32,
            Err(FeltError::OutOfRange) => bytes@.len() <= 32 && be_value(bytes@) >= field_prime(),
        },
{
    match starknet::core::types::FieldElement::from_byte_slice_be(bytes) {
        Ok(f) => Ok(Felt { bytes: f.to_bytes_be() }),
        Err(starknet::core::types::FromByteSliceError::InvalidLength) => {
            Err(FeltError::InvalidLength)
        },
        Err(starknet::core::types::FromByteSliceError::OutOfRange) => {
            Err(FeltError::OutOfRange)
        },
    }
}

/// Calls `FieldElement::to_bits_le`.
///
/// Trusted: entry `i` of the result is bit `i` of the element's value.
#[verifier::external_body]
pub(crate) fn field_to_bits_le(a: &Felt) -> (bits: [bool; 256])
    ensures
        forall|i: int| 0 <= i < 256 ==> bits@[i] == bit_of(a@, i as nat),
{
    starknet::core::types::FieldElement::from_bytes_be(&a.bytes).unwrap().to_bits_le()
}

/// Calls `FieldElement`'s `+`.
///
/// Trusted: the result is the sum of the two values, reduced by the modulus.
#[verifier::external_body]
pub(crate) fn field_add(a: &Felt, b: &Felt) -> (r: Felt)
    ensures
        r@ == (a@ + b@) % field_prime(),
{
    let x = starknet::core::types::FieldElement::from_bytes_be(&a.bytes).unwrap();
    let y = starknet::core::types::FieldElement::from_bytes_be(&b.bytes).unwrap();
    Felt { bytes: (x + y).to_bytes_be() }
}

/// Calls `FieldElement`'s `*`.
///
/// Trusted: the result is the product of the two values, reduced by the
/// modulus.
#[verifier::external_body]
pub(crate) fn field_mul(a: &Felt, b: &Felt) -> (r: Felt)
    ensures
        r@ == (a@ * b@) % field_prime(),
{
    let x = starknet::core::types::FieldElement::from_bytes_be(&a.bytes).unwrap();
    let y = starknet::core::types::FieldElement::from_bytes_be(&b.bytes).unwrap();
    Felt { bytes: (x * y).to_bytes_be() }
}

/// Calls `FieldElement::floor_div`, which panics on a zero divisor.
///
/// Trusted: the result is the quotient of the two values as integers,
/// rounded down.
#[verifier::external_body]
pub(crate) fn field_floor_div(a: &Felt, b: &Felt) -> (r: Felt)
    requires
        b@ != 0,
    ensures
        r@ == a@ / b@,
{
    let x = starknet::core::types::FieldElement::from_bytes_be(&a.bytes).unwrap();
    let y = starknet::core::types::FieldElement::from_bytes_be(&b.bytes).unwrap();
    Felt { bytes: x.floor_div(y).to_bytes_be() }
}

/// Formats a `FieldElement` with `{:#064x}`.
///
/// Trusted: the text is `0x` followed by all 64 hexadecimal digits of the
/// value in lower case, most significant first.
#[verifier::external_body]
pub(crate) fn field_to_hex(a: &Felt) -> (r: String)
    ensures
        r@ == hex_text(a@),
{
    format!("{:#064x}", starknet::core::types::FieldElement::from_bytes_be(&a.bytes).unwrap())
}

/// Calls `FieldElement::from_hex_be`.
///
/// Trusted: whether the call succeeds, and with which value, depends on the
/// text alone.
#[verifier::external_body]
pub(crate) fn field_from_hex_be(text: &str) -> (r: Option<Felt>)
    ensures
        match r {
            Some(f) => hex_be_value(text@) == Some(f@),
            None => hex_be_value(text@) is None,
        },
{
    match starknet::core::types::FieldElement::from_hex_be(text) {
        Ok(f) => Some(Felt { bytes: f.to_bytes_be() }),
        Err(_) => None,
    }
}

} // verus!
