//! Flag block decoder: fixed blocks of 16 little-endian words of per-minitile
//! terrain flags (traversal, elevation tier, line of sight, ramp).

use vstd::prelude::*;

use crate::bytes::le16;
use crate::bytes::read_le16;
use crate::cv5::CV5;
use crate::error::DecodeError;
use crate::error::OutOfRange;
use crate::error::RecordKind;

verus! {

/// Each megatile has 16 (4x4) minitiles, so each block holds 16 flag words.
pub const FLAG_BLOCK_SIZE: usize = 16;

/// The minitile is traversable.
pub const WALKABLE: u16 = 0x0001;

/// Elevation tier: mid.
pub const MID: u16 = 0x0002;

/// Elevation tier: high.
pub const HIGH: u16 = 0x0004;

/// Elevation tier: low. A composite mask: low holds exactly when both the
/// mid and high bits are set, so it is not exclusive with the mid and high
/// queries.
pub const LOW: u16 = 0x0004 | 0x0002;

/// The minitile obstructs line of sight.
pub const BLOCKS_VIEW: u16 = 0x0008;

/// The minitile is a ramp/transition.
pub const RAMP: u16 = 0x0010;

/// One flag word. Every predicate tests its mask by bitwise-AND equality, so
/// composite masks require all of their bits.
#[derive(Clone, Copy, Debug)]
pub struct VF4(u16);

impl View for VF4 {
    type V = u16;

    closed spec fn view(&self) -> u16 {
        self.0
    }
}

impl VF4 {
    /// Whether the minitile is traversable.
    pub fn is_walkable(&self) -> (r: bool)
        ensures
            r == (self@ & WALKABLE == WALKABLE),
    {
        self.0 & WALKABLE == WALKABLE
    }

    /// Whether the mid elevation bit is set.
    pub fn is_elevation_mid(&self) -> (r: bool)
        ensures
            r == (self@ & MID == MID),
    {
        self.0 & MID == MID
    }

    /// Whether the high elevation bit is set.
    pub fn is_elevation_high(&self) -> (r: bool)
        ensures
            r == (self@ & HIGH == HIGH),
    {
        self.0 & HIGH == HIGH
    }

    /// Whether both bits of the composite low mask are set.
    pub fn is_elevation_low(&self) -> (r: bool)
        ensures
            r == (self@ & LOW == LOW),
    {
        self.0 & LOW == LOW
    }

    /// Whether the minitile obstructs line of sight.
    pub fn blocks_view(&self) -> (r: bool)
        ensures
            r == (self@ & BLOCKS_VIEW == BLOCKS_VIEW),
    {
        self.0 & BLOCKS_VIEW == BLOCKS_VIEW
    }

    /// Whether the minitile is a ramp/transition.
    pub fn is_ramp(&self) -> (r: bool)
        ensures
            r == (self@ & RAMP == RAMP),
    {
        self.0 & RAMP == RAMP
    }
}

/// The low elevation tier is a composite, not an exclusive variant: any flag
/// word has it exactly when it has both the mid and the high bits.
pub proof fn lemma_low_is_mid_and_high(w: u16)
    ensures
        (w & LOW == LOW) <==> ((w & MID == MID) && (w & HIGH == HIGH)),
{
    assert((w & (0x0004u16 | 0x0002u16) == (0x0004u16 | 0x0002u16)) <==> ((w & 0x0002u16
        == 0x0002u16) && (w & 0x0004u16 == 0x0004u16))) by (bit_vector);
}

/// The flag words of a block as plain values.
pub open spec fn vf4_seq_view(s: Seq<VF4>) -> Seq<u16> {
    s.map_values(|x: VF4| x@)
}

/// The flag blocks that a well-formed buffer `b` decodes to: one block of 16
/// words per whole 32 bytes.
pub open spec fn spec_vf4s(b: Seq<u8>) -> Seq<Seq<u16>> {
    Seq::new((b.len() / 32) as nat, |g: int| Seq::new(16, |i: int| le16(b, 32 * g + 2 * i)))
}

/// The decoded flag table.
#[derive(Clone, Debug)]
pub struct VF4s(Vec<Vec<VF4>>);

impl View for VF4s {
    type V = Seq<Seq<u16>>;

    closed spec fn view(&self) -> Seq<Seq<u16>> {
        self.0@.map_values(|blk: Vec<VF4>| vf4_seq_view(blk@))
    }
}

impl VF4s {
    /// How many flag blocks the table holds.
    pub fn len(&self) -> (n: usize)
        ensures
            n == self@.len(),
    {
        self.0.len()
    }

    /// The flag block that a megatile reference selects, or `OutOfRange`
    /// when the reference value exceeds the table's length.
    pub fn index(&self, cv5: &CV5) -> (r: Result<&Vec<VF4>, OutOfRange>)
        ensures
            cv5@ < self@.len() ==> (r matches Ok(blk) && vf4_seq_view(blk@) == self@[cv5@ as int]),
            cv5@ >= self@.len() ==> r is Err,
    {
        let i = cv5.value() as usize;
        if i < self.0.len() {
            Ok(&self.0[i])
        } else {
            Err(OutOfRange)
        }
    }
}

/// Decodes a flag buffer. Succeeds exactly when the length is a whole number
/// of 32-byte blocks, producing `b.len() / 32` blocks; a buffer one byte
/// short of a final block is truncated input, and any other leftover is
/// trailing data.
pub fn parse_vf4s(b: &Vec<u8>) -> (r: Result<VF4s, DecodeError>)
    ensures
        b@.len() % 32 == 0 ==> (r matches Ok(t) && t@ == spec_vf4s(b@) && t@.len() == b@.len()
            / 32),
        b@.len() % 32 == 31 ==> (r matches Err(e) && e == (DecodeError::TruncatedInput {
            offset: (b@.len() - 31) as usize,
            record: RecordKind::FlagBlock,
        })),
        b@.len() % 32 != 0 && b@.len() % 32 != 31 ==> (r matches Err(e)
            && e == (DecodeError::TrailingData {
            offset: (b@.len() - b@.len() % 32) as usize,
            record: RecordKind::FlagBlock,
        })),
{
    let n = b.len();
    let rem = n % 32;
    let consumed = n - rem;
    if rem == 31 {
        return Err(DecodeError::TruncatedInput { offset: consumed, record: RecordKind::FlagBlock });
    }
    if rem != 0 {
        return Err(DecodeError::TrailingData { offset: consumed, record: RecordKind::FlagBlock });
    }
    let total = n / 32;
    let mut blocks: Vec<Vec<VF4>> = Vec::new();
    let mut g: usize = 0;
    while g < total
        invariant
            g <= total,
            total == b.len() / 32,
            b.len() % 32 == 0,
            blocks@.len() == g,
            forall|gi: int| 0 <= gi < g ==> vf4_seq_view(#[trigger] blocks@[gi]@) == spec_vf4s(
                b@,
            )[gi],
        decreases total - g,
    {
        let base = 32 * g;
        let mut blk: Vec<VF4> = Vec::new();
        let mut i: usize = 0;
        while i < FLAG_BLOCK_SIZE
            invariant
                i <= 16,
                g < total,
                total == b.len() / 32,
                b.len() % 32 == 0,
                base == 32 * g,
                blk@.len() == i,
                forall|j: int| 0 <= j < i ==> #[trigger] blk@[j]@ == le16(b@, 32 * g + 2 * j),
            decreases 16 - i,
        {
            blk.push(VF4(read_le16(b, base + 2 * i)));
            i += 1;
        }
        proof {
            assert(vf4_seq_view(blk@) =~= spec_vf4s(b@)[g as int]);
        }
        blocks.push(blk);
        g += 1;
    }
    let t = VF4s(blocks);
    proof {
        assert(t@ =~= spec_vf4s(b@));
    }
    Ok(t)
}

/// Import adapter for flag buffers; a thin front for `parse_vf4s`.
#[derive(Clone, Copy, Debug, Default)]
pub struct VF4Format;

impl VF4Format {
    /// The format's display name.
    pub fn name(&self) -> (r: &'static str)
        ensures
            r@ == "VF4Format"@,
    {
        "VF4Format"
    }

    /// Decodes an owned flag buffer, as `parse_vf4s` does.
    pub fn import_simple(&self, bytes: Vec<u8>) -> (r: Result<VF4s, DecodeError>)
        ensures
            bytes@.len() % 32 == 0 ==> (r matches Ok(t) && t@ == spec_vf4s(bytes@)),
            bytes@.len() % 32 == 31 ==> (r matches Err(e) && e == (DecodeError::TruncatedInput {
                offset: (bytes@.len() - 31) as usize,
                record: RecordKind::FlagBlock,
            })),
            bytes@.len() % 32 != 0 && bytes@.len() % 32 != 31 ==> (r matches Err(e)
                && e == (DecodeError::TrailingData {
                offset: (bytes@.len() - bytes@.len() % 32) as usize,
                record: RecordKind::FlagBlock,
            })),
    {
        parse_vf4s(&bytes)
    }
}

} // verus!
