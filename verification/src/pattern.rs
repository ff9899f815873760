//! Bit patterns that an address has to start and end with.
//!
//! An address has 252 significant bits. A mask lists them most significant
//! first: position `p` of the mask stands for the bit of weight `2^(251 - p)`.
//! The prefix pattern fills the leading positions and the suffix pattern the
//! trailing ones; what lies between is free.

use crate::error::MineError;
use crate::field::be_value;
use crate::field::bit_of;
use crate::field::field_from_byte_slice_be;
use crate::field::field_prime;
use crate::field::Felt;
use vstd::prelude::*;
use vstd::string::StringSliceAdditionalSpecFns;

verus! {

/// The number of significant bits of an address.
pub const ADDRESS_BITS: usize = 252;

/// The character `0` or `1`, as a byte of the pattern's text.
pub open spec fn is_bit_char(c: u8) -> bool {
    c == 0x30 || c == 0x31
}

/// Every byte of the text is `0` or `1`.
pub open spec fn is_bit_text(text: Seq<u8>) -> bool {
    forall|i: int| 0 <= i < text.len() ==> is_bit_char(#[trigger] text[i])
}

/// The bits that a text of `0` and `1` spells, in the order of the text.
pub open spec fn text_bits(text: Seq<u8>) -> Seq<bool> {
    Seq::new(text.len(), |i: int| text[i] == 0x31)
}

/// The number that a sequence of bits spells out, most significant bit first.
pub open spec fn bits_value(bits: Seq<bool>) -> nat
    decreases bits.len(),
{
    if bits.len() == 0 {
        0
    } else {
        2 * bits_value(bits.drop_last()) + bit_weight(bits.last(), 1)
    }
}

/// The mask that a prefix and a suffix give: the prefix at the front, the
/// suffix at the back, `false` between them.
pub open spec fn mask_bits(prefix: Seq<bool>, suffix: Seq<bool>) -> Seq<bool> {
    Seq::new(
        252,
        |p: int|
            if p < prefix.len() {
                prefix[p]
            } else if p >= 252 - suffix.len() {
                suffix[p - (252 - suffix.len())]
            } else {
                false
            },
    )
}

/// What a mask is: its 252 flags and the lengths of its two constrained
/// ranges.
pub ghost struct MaskView {
    pub bits: Seq<bool>,
    pub prefix_length: nat,
    pub suffix_length: nat,
}

impl MaskView {
    /// Position `p` lies in the prefix range or in the suffix range.
    pub open spec fn constrains(self, p: int) -> bool {
        0 <= p < self.prefix_length || 252 - self.suffix_length <= p < 252
    }

    /// The two ranges fit side by side, nothing is set outside them, and the
    /// forced bits spell a field element.
    pub open spec fn wf(self) -> bool {
        &&& self.bits.len() == 252
        &&& self.prefix_length + self.suffix_length <= 252
        &&& forall|p: int| 0 <= p < 252 && !self.constrains(p) ==> !#[trigger] self.bits[p]
        &&& bits_value(self.bits) < field_prime()
    }

    /// The bits of an address, least significant first, agree with the mask
    /// at every constrained position.
    pub open spec fn agrees(self, bits_le: Seq<bool>) -> bool {
        forall|p: int| self.constrains(p) ==> #[trigger] self.bits[p] == bits_le[251 - p]
    }

    /// The address agrees with the mask at every constrained position.
    pub open spec fn matches(self, address: nat) -> bool {
        forall|p: int|
            self.constrains(p) ==> #[trigger] self.bits[p] == bit_of(address, (251 - p) as nat)
    }
}

/// One step of the expansion of [`bits_value`] over a prefix of `s`.
pub proof fn lemma_bits_value_take(s: Seq<bool>, k: int)
    requires
        0 < k <= s.len(),
    ensures
        bits_value(s.take(k)) == 2 * bits_value(s.take(k - 1)) + bit_weight(s[k - 1], 1),
{
    assert(s.take(k).drop_last() =~= s.take(k - 1));
}

/// The value of eight bits starting at `at`, as one byte.
pub open spec fn chunk_value(s: Seq<bool>, at: int) -> nat {
    bit_weight(s[at], 128) + bit_weight(s[at + 1], 64) + bit_weight(s[at + 2], 32) + bit_weight(
        s[at + 3],
        16,
    ) + bit_weight(s[at + 4], 8) + bit_weight(s[at + 5], 4) + bit_weight(s[at + 6], 2)
        + bit_weight(s[at + 7], 1)
}

/// What a bit adds to a number: its weight if it is set.
pub open spec fn bit_weight(bit: bool, weight: nat) -> nat {
    if bit {
        weight
    } else {
        0
    }
}

/// Appending eight bits shifts the value by one byte.
pub proof fn lemma_bits_value_chunk(s: Seq<bool>, at: int)
    requires
        0 <= at,
        at + 8 <= s.len(),
    ensures
        bits_value(s.take(at + 8)) == 256 * bits_value(s.take(at)) + chunk_value(s, at),
{
    lemma_bits_value_take(s, at + 1);
    lemma_bits_value_take(s, at + 2);
    lemma_bits_value_take(s, at + 3);
    lemma_bits_value_take(s, at + 4);
    lemma_bits_value_take(s, at + 5);
    lemma_bits_value_take(s, at + 6);
    lemma_bits_value_take(s, at + 7);
    lemma_bits_value_take(s, at + 8);
}

/// Unset bits in front do not change the value.
pub proof fn lemma_bits_value_padded(zeros: Seq<bool>, s: Seq<bool>)
    requires
        forall|i: int| 0 <= i < zeros.len() ==> !zeros[i],
    ensures
        bits_value(zeros + s) == bits_value(s),
    decreases zeros.len() + s.len(),
{
    if s.len() > 0 {
        assert((zeros + s).drop_last() =~= zeros + s.drop_last());
        lemma_bits_value_padded(zeros, s.drop_last());
    } else if zeros.len() > 0 {
        assert(zeros + s =~= zeros);
        assert(zeros.drop_last() + s =~= zeros.drop_last());
        lemma_bits_value_padded(zeros.drop_last(), s);
    } else {
        assert(zeros + s =~= s);
    }
}

/// The 256 bits that are encoded into bytes: four unset bits, then the mask.
pub open spec fn padded(bits: Seq<bool>) -> Seq<bool> {
    seq![false, false, false, false] + bits
}

/// Checks that a text holds only `0` and `1`, and returns the bits it spells.
pub fn parse_bits(text: &[u8]) -> (r: Result<Vec<bool>, MineError>)
    ensures
        r is Ok <==> is_bit_text(text@),
        r matches Ok(bits) ==> bits@ == text_bits(text@),
        r matches Err(e) ==> e == MineError::InvalidBitCharacter,
{
    let mut bits: Vec<bool> = Vec::new();
    let mut i: usize = 0;
    while i < text.len()
        invariant
            i <= text.len(),
            bits@.len() == i,
            forall|k: int| 0 <= k < i ==> is_bit_char(#[trigger] text@[k]),
            forall|k: int| 0 <= k < i ==> bits@[k] == (text@[k] == 0x31),
        decreases text.len() - i,
    {
        let c = text[i];
        if c == 0x31 {
            bits.push(true);
        } else if c == 0x30 {
            bits.push(false);
        } else {
            return Err(MineError::InvalidBitCharacter);
        }
        i += 1;
    }
    assert(bits@ =~= text_bits(text@));
    Ok(bits)
}

/// Bit `q` of the padded mask.
fn padded_bit(bits: &[bool; 252], q: usize) -> (b: bool)
    requires
        q < 256,
    ensures
        b == padded(bits@)[q as int],
{
    if q < 4 {
        false
    } else {
        bits[q - 4]
    }
}

/// The byte that eight bits of the padded mask spell, starting at bit `at`.
fn pack_byte(bits: &[bool; 252], at: usize) -> (b: u8)
    requires
        at + 8 <= 256,
    ensures
        b == chunk_value(padded(bits@), at as int),
{
    (if padded_bit(bits, at) { 128u8 } else { 0u8 })
        + (if padded_bit(bits, at + 1) { 64u8 } else { 0u8 })
        + (if padded_bit(bits, at + 2) { 32u8 } else { 0u8 })
        + (if padded_bit(bits, at + 3) { 16u8 } else { 0u8 })
        + (if padded_bit(bits, at + 4) { 8u8 } else { 0u8 })
        + (if padded_bit(bits, at + 5) { 4u8 } else { 0u8 })
        + (if padded_bit(bits, at + 6) { 2u8 } else { 0u8 })
        + (if padded_bit(bits, at + 7) { 1u8 } else { 0u8 })
}

/// The 32 bytes that encode a mask as a number: 256 bits, the first four
/// unset, eight to a byte, most significant first.
pub fn encode_bloom(bits: &[bool; 252]) -> (bytes: Vec<u8>)
    ensures
        bytes@.len() == 32,
        be_value(bytes@) == bits_value(bits@),
{
    let mut bytes: Vec<u8> = Vec::new();
    let mut j: usize = 0;
    while j < 32
        invariant
            j <= 32,
            bytes@.len() == j,
            be_value(bytes@) == bits_value(padded(bits@).take(8 * j)),
        decreases 32 - j,
    {
        let b = pack_byte(bits, 8 * j);
        proof {
            lemma_bits_value_chunk(padded(bits@), 8 * j);
            assert(bytes@.push(b).drop_last() =~= bytes@);
        }
        bytes.push(b);
        j += 1;
    }
    proof {
        assert(padded(bits@).take(256) =~= padded(bits@));
        lemma_bits_value_padded(seq![false, false, false, false], bits@);
    }
    bytes
}

/// Checks that the bits a mask forces spell a field element.
pub fn validate_bloom(bits: &[bool; 252]) -> (r: Result<(), MineError>)
    ensures
        r is Ok <==> bits_value(bits@) < field_prime(),
        r matches Err(e) ==> e == MineError::InfeasiblePattern,
{
    let bytes = encode_bloom(bits);
    match field_from_byte_slice_be(bytes.as_slice()) {
        Ok(_) => Ok(()),
        Err(_) => Err(MineError::InfeasiblePattern),
    }
}

/// The acceptance pattern of a mining session.
#[derive(Clone, Copy, Debug, PartialEq, Eq)]
pub struct BitMask {
    bits: [bool; 252],
    prefix_length: usize,
    suffix_length: usize,
}

impl View for BitMask {
    type V = MaskView;

    closed spec fn view(&self) -> MaskView {
        MaskView {
            bits: self.bits@,
            prefix_length: self.prefix_length as nat,
            suffix_length: self.suffix_length as nat,
        }
    }
}

impl BitMask {
    /// Every mask is well formed.
    #[verifier::type_invariant]
    pub open spec fn inv(self) -> bool {
        self@.wf()
    }

    /// Builds the mask for a prefix and a suffix, each a text of `0` and `1`
    /// with the most significant bit first.
    ///
    /// A text of more than 252 bytes is too long. Then every character has
    /// to be `0` or `1`. Then the two patterns must not overlap, and the
    /// number that the forced bits spell, with every free bit unset, has to
    /// be a field element; otherwise the pattern is infeasible.
    pub fn from_patterns(prefix: &str, suffix: &str) -> (r: Result<BitMask, MineError>)
        ensures
            match r {
                Ok(mask) => {
                    &&& pattern_fault(prefix.spec_bytes(), suffix.spec_bytes()) is None
                    &&& mask@ == pattern_mask(prefix.spec_bytes(), suffix.spec_bytes())
                    &&& mask@.wf()
                },
                Err(e) => pattern_fault(prefix.spec_bytes(), suffix.spec_bytes()) == Some(e),
            },
    {
        let prefix_text = prefix.as_bytes();
        let suffix_text = suffix.as_bytes();
        if prefix_text.len() > ADDRESS_BITS || suffix_text.len() > ADDRESS_BITS {
            return Err(MineError::PatternTooLong);
        }
        let suffix_bits = match parse_bits(suffix_text) {
            Ok(bits) => bits,
            Err(e) => {
                return Err(e);
            },
        };
        let prefix_bits = match parse_bits(prefix_text) {
            Ok(bits) => bits,
            Err(e) => {
                return Err(e);
            },
        };
        let prefix_length = prefix_bits.len();
        let suffix_length = suffix_bits.len();
        if prefix_length + suffix_length > ADDRESS_BITS {
            return Err(MineError::InfeasiblePattern);
        }
        let mut bits = [false; 252];
        let mut i: usize = 0;
        while i < prefix_length
            invariant
                i <= prefix_length <= 252,
                prefix_length == prefix_bits@.len(),
                forall|p: int| 0 <= p < i ==> bits@[p] == prefix_bits@[p],
                forall|p: int| i <= p < 252 ==> !bits@[p],
            decreases prefix_length - i,
        {
            bits[i] = prefix_bits[i];
            i += 1;
        }
        let start = ADDRESS_BITS - suffix_length;
        let mut k: usize = 0;
        while k < suffix_length
            invariant
                k <= suffix_length,
                prefix_length + suffix_length <= 252,
                start == 252 - suffix_length,
                suffix_length == suffix_bits@.len(),
                prefix_length == prefix_bits@.len(),
                forall|p: int| 0 <= p < prefix_length ==> bits@[p] == prefix_bits@[p],
                forall|p: int| prefix_length <= p < start ==> !bits@[p],
                forall|p: int| start <= p < start + k ==> bits@[p] == suffix_bits@[p - start],
                forall|p: int| start + k <= p < 252 ==> !bits@[p],
            decreases suffix_length - k,
        {
            bits[start + k] = suffix_bits[k];
            k += 1;
        }
        assert(bits@ =~= mask_bits(prefix_bits@, suffix_bits@));
        match validate_bloom(&bits) {
            Ok(()) => Ok(BitMask { bits, prefix_length, suffix_length }),
            Err(e) => Err(e),
        }
    }

    /// Tests an address against the mask.
    pub fn matches(&self, address: &Felt) -> (r: bool)
        ensures
            r == self@.matches(address@),
    {
        let bits_le = address.to_bits_le();
        proof {
            use_type_invariant(self);
            lemma_agrees_is_matches(self@, bits_le@, address@);
        }
        validate_address(&bits_le, self)
    }

    /// The number of leading positions that the prefix constrains.
    pub fn prefix_length(&self) -> (n: usize)
        ensures
            n == self@.prefix_length,
    {
        self.prefix_length
    }

    /// The number of trailing positions that the suffix constrains.
    pub fn suffix_length(&self) -> (n: usize)
        ensures
            n == self@.suffix_length,
    {
        self.suffix_length
    }

    /// The 252 flags of the mask, most significant position first.
    pub fn bits(&self) -> (r: [bool; 252])
        ensures
            r@ == self@.bits,
    {
        self.bits
    }
}

/// The mask that two pattern texts give.
pub open spec fn pattern_mask(prefix: Seq<u8>, suffix: Seq<u8>) -> MaskView {
    MaskView {
        bits: mask_bits(text_bits(prefix), text_bits(suffix)),
        prefix_length: prefix.len(),
        suffix_length: suffix.len(),
    }
}

/// What is wrong with two pattern texts, if anything: the first of too long,
/// a character that is no bit, and infeasible.
pub open spec fn pattern_fault(prefix: Seq<u8>, suffix: Seq<u8>) -> Option<MineError> {
    if prefix.len() > 252 || suffix.len() > 252 {
        Some(MineError::PatternTooLong)
    } else if !is_bit_text(prefix) || !is_bit_text(suffix) {
        Some(MineError::InvalidBitCharacter)
    } else if prefix.len() + suffix.len() > 252 || bits_value(pattern_mask(prefix, suffix).bits)
        >= field_prime() {
        Some(MineError::InfeasiblePattern)
    } else {
        None
    }
}

/// Tests the bits of an address, least significant first, against a mask:
/// first the prefix range, then the suffix range, up to the first position
/// that differs.
pub fn validate_address(address: &[bool; 256], mask: &BitMask) -> (r: bool)
    ensures
        r == mask@.agrees(address@),
{
    proof {
        use_type_invariant(mask);
    }
    let mut p: usize = 0;
    while p < mask.prefix_length
        invariant
            p <= mask.prefix_length <= 252,
            forall|q: int| 0 <= q < p ==> mask.bits@[q] == address@[251 - q],
        decreases mask.prefix_length - p,
    {
        if address[251 - p] != mask.bits[p] {
            assert(mask@.constrains(p as int) && mask@.bits[p as int] != address@[251 - p]);
            return false;
        }
        p += 1;
    }
    let mut p: usize = ADDRESS_BITS - mask.suffix_length;
    while p < ADDRESS_BITS
        invariant
            mask.prefix_length <= 252,
            252 - mask.suffix_length <= p <= 252,
            forall|q: int| 0 <= q < mask.prefix_length ==> mask.bits@[q] == address@[251 - q],
            forall|q: int| 252 - mask.suffix_length <= q < p ==> mask.bits@[q] == address@[251 - q],
        decreases 252 - p,
    {
        if address[251 - p] != mask.bits[p] {
            assert(mask@.constrains(p as int) && mask@.bits[p as int] != address@[251 - p]);
            return false;
        }
        p += 1;
    }
    true
}

/// Where the bits are those of the address, agreeing with the bits is
/// matching the address.
pub proof fn lemma_agrees_is_matches(mask: MaskView, bits_le: Seq<bool>, address: nat)
    requires
        mask.prefix_length + mask.suffix_length <= 252,
        bits_le.len() == 256,
        forall|i: int| 0 <= i < 256 ==> bits_le[i] == bit_of(address, i as nat),
    ensures
        mask.agrees(bits_le) == mask.matches(address),
{
    if mask.agrees(bits_le) {
        assert forall|p: int| mask.constrains(p) implies #[trigger] mask.bits[p] == bit_of(
            address,
            (251 - p) as nat,
        ) by {
            assert(bits_le[251 - p] == bit_of(address, (251 - p) as nat));
        }
    }
    if mask.matches(address) {
        assert forall|p: int| mask.constrains(p) implies #[trigger] mask.bits[p] == bits_le[251
            - p] by {
            assert(bits_le[251 - p] == bit_of(address, (251 - p) as nat));
        }
    }
}

/// Mask round trip: a mask built from a prefix and a suffix that fit side by
/// side holds the prefix at its front and the suffix at its back, bit for
/// bit.
pub proof fn lemma_mask_reproduces(prefix: Seq<bool>, suffix: Seq<bool>)
    requires
        prefix.len() + suffix.len() <= 252,
    ensures
        mask_bits(prefix, suffix).len() == 252,
        forall|k: int| 0 <= k < prefix.len() ==> mask_bits(prefix, suffix)[k] == prefix[k],
        forall|k: int|
            0 <= k < suffix.len() ==> mask_bits(prefix, suffix)[252 - suffix.len() + k]
                == suffix[k],
{
}

/// An address matches the mask of a prefix and a suffix exactly when its 252
/// bits, written most significant first, start with the prefix and end with
/// the suffix.
pub proof fn lemma_matches_patterns(prefix: Seq<bool>, suffix: Seq<bool>, address: nat)
    requires
        prefix.len() + suffix.len() <= 252,
    ensures
        (MaskView {
            bits: mask_bits(prefix, suffix),
            prefix_length: prefix.len(),
            suffix_length: suffix.len(),
        }).matches(address) <==> {
            &&& forall|k: int|
                0 <= k < prefix.len() ==> #[trigger] prefix[k] == bit_of(address, (251 - k) as nat)
            &&& forall|k: int|
                0 <= k < suffix.len() ==> #[trigger] suffix[k] == bit_of(
                    address,
                    (suffix.len() - 1 - k) as nat,
                )
        },
{
    let mask = MaskView {
        bits: mask_bits(prefix, suffix),
        prefix_length: prefix.len(),
        suffix_length: suffix.len(),
    };
    let start = 252 - suffix.len();
    if mask.matches(address) {
        assert forall|k: int| 0 <= k < prefix.len() implies #[trigger] prefix[k] == bit_of(
            address,
            (251 - k) as nat,
        ) by {
            assert(mask.constrains(k));
            assert(mask.bits[k] == prefix[k]);
        }
        assert forall|k: int| 0 <= k < suffix.len() implies #[trigger] suffix[k] == bit_of(
            address,
            (suffix.len() - 1 - k) as nat,
        ) by {
            assert(mask.constrains(start + k));
            assert(mask.bits[start + k] == suffix[k]);
        }
    }
    if (forall|k: int|
        0 <= k < prefix.len() ==> #[trigger] prefix[k] == bit_of(address, (251 - k) as nat))
        && (forall|k: int|
        0 <= k < suffix.len() ==> #[trigger] suffix[k] == bit_of(
            address,
            (suffix.len() - 1 - k) as nat,
        )) {
        assert forall|p: int| mask.constrains(p) implies #[trigger] mask.bits[p] == bit_of(
            address,
            (251 - p) as nat,
        ) by {
            if p < prefix.len() {
                assert(mask.bits[p] == prefix[p]);
            } else {
                assert(mask.bits[p] == suffix[p - start]);
            }
        }
    }
}

} // verus!
