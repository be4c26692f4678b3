//! The 128-bit identifier value and the fields that every layout shares.

use vstd::prelude::*;

verus! {

/// A 128-bit identifier, held as its sixteen bytes in network order.
#[derive(Debug, Clone, Copy, PartialEq, Eq, PartialOrd, Ord, Hash)]
pub struct Identifier {
    pub bytes: [u8; 16],
}

/// The version field of sixteen identifier bytes: the high four bits of byte 6.
pub open spec fn version_of(bytes: Seq<u8>) -> int
    recommends
        bytes.len() == 16,
{
    bytes[6] as int / 16
}

/// Whether the variant field (the two high bits of byte 8) reads `10`.
pub open spec fn has_standard_variant(bytes: Seq<u8>) -> bool
    recommends
        bytes.len() == 16,
{
    128 <= bytes[8] < 192
}

/// The number that bytes stand for, most significant byte first.
pub open spec fn value_of(bytes: Seq<u8>) -> nat
    decreases bytes.len(),
{
    if bytes.len() == 0 {
        0
    } else {
        value_of(bytes.drop_last()) * 256 + bytes.last() as nat
    }
}

/// Whether `later`, taken as a number, is at least `earlier`.
pub open spec fn not_below(later: Seq<u8>, earlier: Seq<u8>) -> bool {
    value_of(later) >= value_of(earlier)
}

/// 256 to the power `n`.
pub open spec fn radix_power(n: nat) -> nat
    decreases n,
{
    if n == 0 {
        1
    } else {
        radix_power((n - 1) as nat) * 256
    }
}

/// The number that `n` bytes stand for is below 256 to the power `n`.
pub proof fn lemma_value_is_bounded(bytes: Seq<u8>)
    ensures
        value_of(bytes) < radix_power(bytes.len()),
    decreases bytes.len(),
{
    if bytes.len() > 0 {
        lemma_value_is_bounded(bytes.drop_last());
    }
}

/// The powers of 256 do not decrease.
pub proof fn lemma_radix_power_grows(m: nat, n: nat)
    requires
        m <= n,
    ensures
        radix_power(m) <= radix_power(n),
    decreases n - m,
{
    if m < n {
        lemma_radix_power_grows(m, (n - 1) as nat);
    }
}

/// Sixteen bytes stand for a number of 128 bits.
pub proof fn lemma_radix_powers()
    ensures
        radix_power(16) == 0x1_0000_0000_0000_0000_0000_0000_0000_0000,
{
    reveal_with_fuel(radix_power, 17);
}

/// Bytes that are all zero stand for zero.
pub proof fn lemma_value_of_zeros(bytes: Seq<u8>)
    requires
        forall|i: int| 0 <= i < bytes.len() ==> bytes[i] == 0,
    ensures
        value_of(bytes) == 0,
    decreases bytes.len(),
{
    if bytes.len() > 0 {
        lemma_value_of_zeros(bytes.drop_last());
    }
}

impl View for Identifier {
    type V = Seq<u8>;

    open spec fn view(&self) -> Seq<u8> {
        self.bytes@
    }
}

impl Identifier {
    /// Wraps sixteen bytes as they stand.
    pub fn from_bytes(bytes: [u8; 16]) -> (id: Identifier)
        ensures
            id@ == bytes@,
            id.bytes == bytes,
    {
        Identifier { bytes }
    }

    /// The sixteen bytes, most significant first.
    pub fn as_bytes(&self) -> (bytes: [u8; 16])
        ensures
            bytes@ == self@,
            bytes == self.bytes,
    {
        self.bytes
    }

    /// The identifier as a number of 128 bits, its first byte the most
    /// significant.
    pub fn as_u128(&self) -> (v: u128)
        ensures
            v as nat == value_of(self@),
    {
        let mut v: u128 = 0;
        let mut i: usize = 0;
        assert(self@.subrange(0, 0) =~= Seq::<u8>::empty());
        while i < 16
            invariant
                i <= 16,
                self@.len() == 16,
                v as nat == value_of(self@.subrange(0, i as int)),
            decreases 16 - i,
        {
            let ghost before = self@.subrange(0, i as int);
            let ghost after = self@.subrange(0, i as int + 1);
            proof {
                assert(after.drop_last() =~= before);
                lemma_value_is_bounded(before);
                lemma_value_is_bounded(after);
                lemma_radix_powers();
                assert(radix_power(after.len()) <= radix_power(16)) by {
                    lemma_radix_power_grows(after.len(), 16);
                }
            }
            v = v * 256 + self.bytes[i] as u128;
            i += 1;
        }
        assert(self@.subrange(0, 16) =~= self@);
        v
    }

    /// The version field, 0 to 15.
    pub fn version(&self) -> (v: u8)
        ensures
            v as int == version_of(self@),
    {
        let b: u8 = self.bytes[6];
        assert(b >> 4 == b / 16) by (bit_vector);
        b >> 4
    }
}

} // verus!
