//! Image-reference block decoder: fixed blocks of 16 little-endian words,
//! each pairing a mirror flag (bit 0) with a pixel-block index (bits 1-15).

use vstd::prelude::*;

use crate::bytes::le16;
use crate::bytes::read_le16;
use crate::cv5::CV5;
use crate::error::DecodeError;
use crate::error::OutOfRange;
use crate::error::RecordKind;

verus! {

/// Each megatile has 16 (4x4) minitiles, so each block holds 16 entries.
pub const IMAGE_REF_BLOCK_SIZE: usize = 16;

/// One image reference: bit 0 says whether the referenced minitile image is
/// horizontally flipped, and the remaining bits index the pixel-block table.
#[derive(Clone, Copy, Debug)]
pub struct VX4(u16);

impl View for VX4 {
    type V = u16;

    closed spec fn view(&self) -> u16 {
        self.0
    }
}

impl VX4 {
    /// Whether the referenced 8x8 image is read left-right reversed.
    pub fn is_horizontally_flipped(&self) -> (r: bool)
        ensures
            r == (self@ & 1 == 1),
    {
        self.0 & 1 == 1
    }

    /// The index into the pixel-block table: the entry value without its
    /// mirror bit.
    pub fn index(&self) -> (r: usize)
        ensures
            r == (self@ >> 1) as usize,
    {
        (self.0 >> 1) as usize
    }
}

/// The entry words of a block as plain values.
pub open spec fn vx4_seq_view(s: Seq<VX4>) -> Seq<u16> {
    s.map_values(|x: VX4| x@)
}

/// The image-reference blocks that a well-formed buffer `b` decodes to: one
/// block of 16 words per whole 32 bytes.
pub open spec fn spec_vx4s(b: Seq<u8>) -> Seq<Seq<u16>> {
    Seq::new((b.len() / 32) as nat, |g: int| Seq::new(16, |i: int| le16(b, 32 * g + 2 * i)))
}

/// The decoded image-reference table.
#[derive(Clone, Debug)]
pub struct VX4s(Vec<Vec<VX4>>);

impl View for VX4s {
    type V = Seq<Seq<u16>>;

    closed spec fn view(&self) -> Seq<Seq<u16>> {
        self.0@.map_values(|blk: Vec<VX4>| vx4_seq_view(blk@))
    }
}

impl VX4s {
    /// How many image-reference blocks the table holds.
    pub fn len(&self) -> (n: usize)
        ensures
            n == self@.len(),
    {
        self.0.len()
    }

    /// The block that a megatile reference selects, or `OutOfRange` when the
    /// reference value exceeds the table's length.
    pub fn index(&self, cv5: &CV5) -> (r: Result<&Vec<VX4>, OutOfRange>)
        ensures
            cv5@ < self@.len() ==> (r matches Ok(blk) && vx4_seq_view(blk@) == self@[cv5@ as int]),
            cv5@ >= self@.len() ==> r is Err,
    {
        let i = cv5.value() as usize;
        if i < self.0.len() {
            Ok(&self.0[i])
        } else {
            Err(OutOfRange)
        }
    }
}

/// Decodes an image-reference buffer. Succeeds exactly when the length is a
/// whole number of 32-byte blocks, producing `b.len() / 32` blocks; a buffer
/// one byte short of a final block is truncated input, and any other
/// leftover is trailing data.
pub fn parse_vx4s(b: &Vec<u8>) -> (r: Result<VX4s, DecodeError>)
    ensures
        b@.len() % 32 == 0 ==> (r matches Ok(t) && t@ == spec_vx4s(b@) && t@.len() == b@.len()
            / 32),
        b@.len() % 32 == 31 ==> (r matches Err(e) && e == (DecodeError::TruncatedInput {
            offset: (b@.len() - 31) as usize,
            record: RecordKind::ImageReferenceBlock,
        })),
        b@.len() % 32 != 0 && b@.len() % 32 != 31 ==> (r matches Err(e)
            && e == (DecodeError::TrailingData {
            offset: (b@.len() - b@.len() % 32) as usize,
            record: RecordKind::ImageReferenceBlock,
        })),
{
    let n = b.len();
    let rem = n % 32;
    let consumed = n - rem;
    if rem == 31 {
        return Err(DecodeError::TruncatedInput {
            offset: consumed,
            record: RecordKind::ImageReferenceBlock,
        });
    }
    if rem != 0 {
        return Err(DecodeError::TrailingData {
            offset: consumed,
            record: RecordKind::ImageReferenceBlock,
        });
    }
    let total = n / 32;
    let mut blocks: Vec<Vec<VX4>> = Vec::new();
    let mut g: usize = 0;
    while g < total
        invariant
            g <= total,
            total == b.len() / 32,
            b.len() % 32 == 0,
            blocks@.len() == g,
            forall|gi: int| 0 <= gi < g ==> vx4_seq_view(#[trigger] blocks@[gi]@) == spec_vx4s(
                b@,
            )[gi],
        decreases total - g,
    {
        let base = 32 * g;
        let mut blk: Vec<VX4> = Vec::new();
        let mut i: usize = 0;
        while i < IMAGE_REF_BLOCK_SIZE
            invariant
                i <= 16,
                g < total,
                total == b.len() / 32,
                b.len() % 32 == 0,
                base == 32 * g,
                blk@.len() == i,
                forall|j: int| 0 <= j < i ==> #[trigger] blk@[j]@ == le16(b@, 32 * g + 2 * j),
            decreases 16 - i,
        {
            blk.push(VX4(read_le16(b, base + 2 * i)));
            i += 1;
        }
        proof {
            assert(vx4_seq_view(blk@) =~= spec_vx4s(b@)[g as int]);
        }
        blocks.push(blk);
        g += 1;
    }
    let t = VX4s(blocks);
    proof {
        assert(t@ =~= spec_vx4s(b@));
    }
    Ok(t)
}

/// Import adapter for image-reference buffers; a thin front for `parse_vx4s`.
#[derive(Clone, Copy, Debug, Default)]
pub struct VX4Format;

impl VX4Format {
    /// The format's display name.
    pub fn name(&self) -> (r: &'static str)
        ensures
            r@ == "VX4Format"@,
    {
        "VX4Format"
    }

    /// Decodes an owned image-reference buffer, as `parse_vx4s` does.
    pub fn import_simple(&self, bytes: Vec<u8>) -> (r: Result<VX4s, DecodeError>)
        ensures
            bytes@.len() % 32 == 0 ==> (r matches Ok(t) && t@ == spec_vx4s(bytes@)),
            bytes@.len() % 32 == 31 ==> (r matches Err(e) && e == (DecodeError::TruncatedInput {
                offset: (bytes@.len() - 31) as usize,
                record: RecordKind::ImageReferenceBlock,
            })),
            bytes@.len() % 32 != 0 && bytes@.len() % 32 != 31 ==> (r matches Err(e)
                && e == (DecodeError::TrailingData {
                offset: (bytes@.len() - bytes@.len() % 32) as usize,
                record: RecordKind::ImageReferenceBlock,
            })),
    {
        parse_vx4s(&bytes)
    }
}

} // verus!
