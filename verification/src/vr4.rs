//! Pixel-index block decoder: fixed 64-byte blocks of palette indices, each
//! block one 8x8 minitile image in row-major order.

use vstd::prelude::*;

use crate::error::DecodeError;
use crate::error::OutOfRange;
use crate::error::RecordKind;
use crate::vx4::VX4;

verus! {

/// Each minitile has a side length of 8 pixels.
pub const MINITILE_SIDE_LENGTH: usize = 8;

/// 8x8 = 64 pixels per block.
pub const PIXEL_BLOCK_SIZE: usize = 64;

/// One pixel of a minitile image: an index into the palette.
#[derive(Clone, Copy, Debug)]
pub struct VR4(u8);

impl View for VR4 {
    type V = u8;

    closed spec fn view(&self) -> u8 {
        self.0
    }
}

impl VR4 {
    /// The palette index this pixel stores.
    pub fn value(&self) -> (r: u8)
        ensures
            r == self@,
    {
        self.0
    }
}

/// The palette indices of a block as plain bytes.
pub open spec fn vr4_seq_view(s: Seq<VR4>) -> Seq<u8> {
    s.map_values(|x: VR4| x@)
}

/// The pixel blocks that a well-formed buffer `b` decodes to: one 64-byte
/// block per whole 64 bytes.
pub open spec fn spec_vr4s(b: Seq<u8>) -> Seq<Seq<u8>> {
    Seq::new((b.len() / 64) as nat, |g: int| Seq::new(64, |i: int| b[64 * g + i]))
}

/// The decoded pixel-index table.
#[derive(Clone, Debug)]
pub struct VR4s(Vec<Vec<VR4>>);

impl View for VR4s {
    type V = Seq<Seq<u8>>;

    closed spec fn view(&self) -> Seq<Seq<u8>> {
        self.0@.map_values(|blk: Vec<VR4>| vr4_seq_view(blk@))
    }
}

impl VR4s {
    /// Well-formed: every pixel block holds exactly 64 palette indices, as
    /// every decoded table does.
    pub open spec fn wf(&self) -> bool {
        forall|g: int| 0 <= g < self@.len() ==> (#[trigger] self@[g]).len() == 64
    }

    /// How many pixel blocks the table holds.
    pub fn len(&self) -> (n: usize)
        ensures
            n == self@.len(),
    {
        self.0.len()
    }

    /// Read access to the whole block sequence, e.g. for batch iteration.
    pub fn blocks(&self) -> (r: &Vec<Vec<VR4>>)
        ensures
            r@.len() == self@.len(),
            forall|g: int| 0 <= g < self@.len() ==> vr4_seq_view(#[trigger] r@[g]@) == self@[g],
    {
        &self.0
    }

    /// The pixel block that an image reference selects, or `OutOfRange` when
    /// its index exceeds the table's length.
    pub fn index(&self, vx4: &VX4) -> (r: Result<&Vec<VR4>, OutOfRange>)
        ensures
            (vx4@ >> 1) < self@.len() ==> (r matches Ok(blk) && vr4_seq_view(blk@) == self@[(
            vx4@ >> 1) as int]),
            (vx4@ >> 1) >= self@.len() ==> r is Err,
    {
        let i = vx4.index();
        if i < self.0.len() {
            Ok(&self.0[i])
        } else {
            Err(OutOfRange)
        }
    }
}

/// Decodes a pixel-index buffer. Succeeds exactly when the length is a whole
/// number of 64-byte blocks, producing `b.len() / 64` blocks; a buffer one
/// byte short of a final block is truncated input, and any other leftover is
/// trailing data.
pub fn parse_vr4s(b: &Vec<u8>) -> (r: Result<VR4s, DecodeError>)
    ensures
        b@.len() % 64 == 0 ==> (r matches Ok(t) && t@ == spec_vr4s(b@) && t@.len() == b@.len() / 64
            && t.wf()),
        b@.len() % 64 == 63 ==> (r matches Err(e) && e == (DecodeError::TruncatedInput {
            offset: (b@.len() - 63) as usize,
            record: RecordKind::PixelIndexBlock,
        })),
        b@.len() % 64 != 0 && b@.len() % 64 != 63 ==> (r matches Err(e)
            && e == (DecodeError::TrailingData {
            offset: (b@.len() - b@.len() % 64) as usize,
            record: RecordKind::PixelIndexBlock,
        })),
{
    let n = b.len();
    let rem = n % PIXEL_BLOCK_SIZE;
    let consumed = n - rem;
    if rem == 63 {
        return Err(DecodeError::TruncatedInput {
            offset: consumed,
            record: RecordKind::PixelIndexBlock,
        });
    }
    if rem != 0 {
        return Err(DecodeError::TrailingData {
            offset: consumed,
            record: RecordKind::PixelIndexBlock,
        });
    }
    let total = n / PIXEL_BLOCK_SIZE;
    let mut blocks: Vec<Vec<VR4>> = Vec::new();
    let mut g: usize = 0;
    while g < total
        invariant
            g <= total,
            total == b.len() / 64,
            b.len() % 64 == 0,
            blocks@.len() == g,
            forall|gi: int| 0 <= gi < g ==> vr4_seq_view(#[trigger] blocks@[gi]@) == spec_vr4s(
                b@,
            )[gi],
        decreases total - g,
    {
        let base = PIXEL_BLOCK_SIZE * g;
        let mut blk: Vec<VR4> = Vec::new();
        let mut i: usize = 0;
        while i < PIXEL_BLOCK_SIZE
            invariant
                i <= 64,
                g < total,
                total == b.len() / 64,
                b.len() % 64 == 0,
                base == 64 * g,
                blk@.len() == i,
                forall|j: int| 0 <= j < i ==> #[trigger] blk@[j]@ == b@[64 * g + j],
            decreases 64 - i,
        {
            blk.push(VR4(b[base + i]));
            i += 1;
        }
        proof {
            assert(vr4_seq_view(blk@) =~= spec_vr4s(b@)[g as int]);
        }
        blocks.push(blk);
        g += 1;
    }
    let t = VR4s(blocks);
    proof {
        assert(t@ =~= spec_vr4s(b@));
    }
    Ok(t)
}

/// Import adapter for pixel-index buffers; a thin front for `parse_vr4s`.
#[derive(Clone, Copy, Debug, Default)]
pub struct VR4Format;

impl VR4Format {
    /// The format's display name.
    pub fn name(&self) -> (r: &'static str)
        ensures
            r@ == "VR4Format"@,
    {
        "VR4Format"
    }

    /// Decodes an owned pixel-index buffer, as `parse_vr4s` does.
    pub fn import_simple(&self, bytes: Vec<u8>) -> (r: Result<VR4s, DecodeError>)
        ensures
            bytes@.len() % 64 == 0 ==> (r matches Ok(t) && t@ == spec_vr4s(bytes@)),
            bytes@.len() % 64 == 63 ==> (r matches Err(e) && e == (DecodeError::TruncatedInput {
                offset: (bytes@.len() - 63) as usize,
                record: RecordKind::PixelIndexBlock,
            })),
            bytes@.len() % 64 != 0 && bytes@.len() % 64 != 63 ==> (r matches Err(e)
                && e == (DecodeError::TrailingData {
                offset: (bytes@.len() - bytes@.len() % 64) as usize,
                record: RecordKind::PixelIndexBlock,
            })),
    {
        parse_vr4s(&bytes)
    }
}

} // verus!
