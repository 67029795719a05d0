//! Resolution chain: pure query functions over the decoded tables. A
//! megatile coordinate is resolved through up to four tables to a pixel
//! block, a color triple, or a terrain-flag word. Any reference that is out
//! of range for the table it indexes into fails closed with `OutOfRange`.

use vstd::prelude::*;

use crate::cv5::CV5s;
use crate::error::OutOfRange;
use crate::megatile::MegaTile;
use crate::vf4::VF4;
use crate::vf4::VF4s;
use crate::vr4::VR4s;
use crate::vr4::vr4_seq_view;
use crate::vx4::VX4;
use crate::vx4::VX4s;
use crate::wpe::WPEs;

verus! {

/// The megatile reference a coordinate selects, when both its indices are in
/// range.
pub open spec fn spec_reference(cv5s: Seq<Seq<u16>>, g: int, s: int) -> Option<u16> {
    if 0 <= g < cv5s.len() && 0 <= s < cv5s[g].len() {
        Some(cv5s[g][s])
    } else {
        None
    }
}

/// The flag word a coordinate resolves to: the megatile reference selects
/// the flag block, and the subtile position selects the word within it.
pub open spec fn spec_flags(cv5s: Seq<Seq<u16>>, vf4s: Seq<Seq<u16>>, g: int, s: int) -> Option<
    u16,
> {
    match spec_reference(cv5s, g, s) {
        Some(r) => {
            let t = r as int;
            if t < vf4s.len() && s < vf4s[t].len() {
                Some(vf4s[t][s])
            } else {
                None
            }
        },
        None => None,
    }
}

/// The image-reference word a coordinate resolves to: the megatile reference
/// selects the image-reference block, and the subtile position selects the
/// entry within it.
pub open spec fn spec_image_entry(cv5s: Seq<Seq<u16>>, vx4s: Seq<Seq<u16>>, g: int, s: int) -> Option<
    u16,
> {
    match spec_reference(cv5s, g, s) {
        Some(r) => {
            let t = r as int;
            if t < vx4s.len() && s < vx4s[t].len() {
                Some(vx4s[t][s])
            } else {
                None
            }
        },
        None => None,
    }
}

/// An 8x8 row-major block read left-right reversed: position (x, y) of the
/// result holds position (7 - x, y) of the input.
pub open spec fn spec_mirror(s: Seq<u8>) -> Seq<u8>
    recommends
        s.len() == 64,
{
    Seq::new(s.len(), |i: int| s[8 * (i / 8) + (7 - i % 8)])
}

/// Mirroring moves each pixel (x, y) of the 8x8 grid to (7 - x, y).
pub proof fn lemma_mirror_horizontal(s: Seq<u8>, x: int, y: int)
    requires
        s.len() == 64,
        0 <= x < 8,
        0 <= y < 8,
    ensures
        spec_mirror(s)[8 * y + x] == s[8 * y + (7 - x)],
{
    assert((8 * y + x) / 8 == y && (8 * y + x) % 8 == x) by (nonlinear_arith)
        requires
            0 <= x < 8,
            0 <= y < 8,
    ;
}

/// A megatile reference beyond the flag table's length makes the flag path
/// fail closed: no flag word is ever produced for it.
pub proof fn lemma_out_of_range_reference_fails_flags(
    cv5s: Seq<Seq<u16>>,
    vf4s: Seq<Seq<u16>>,
    g: int,
    s: int,
)
    requires
        spec_reference(cv5s, g, s) matches Some(r) && r >= vf4s.len(),
    ensures
        spec_flags(cv5s, vf4s, g, s) is None,
{
}

/// The 64 palette indices of the minitile image a coordinate resolves to,
/// with the mirror flag already applied.
pub open spec fn spec_minitile_pixels(
    cv5s: Seq<Seq<u16>>,
    vx4s: Seq<Seq<u16>>,
    vr4s: Seq<Seq<u8>>,
    g: int,
    s: int,
) -> Option<Seq<u8>> {
    match spec_image_entry(cv5s, vx4s, g, s) {
        Some(w) => {
            let p = (w >> 1) as int;
            if p < vr4s.len() {
                if w & 1 == 1 {
                    Some(spec_mirror(vr4s[p]))
                } else {
                    Some(vr4s[p])
                }
            } else {
                None
            }
        },
        None => None,
    }
}

/// A megatile reference beyond the image-reference table's length makes the
/// color path fail closed: no pixel block (and hence no color) is ever
/// produced for it.
pub proof fn lemma_out_of_range_reference_fails_color(
    cv5s: Seq<Seq<u16>>,
    vx4s: Seq<Seq<u16>>,
    vr4s: Seq<Seq<u8>>,
    g: int,
    s: int,
)
    requires
        spec_reference(cv5s, g, s) matches Some(r) && r >= vx4s.len(),
    ensures
        spec_minitile_pixels(cv5s, vx4s, vr4s, g, s) is None,
{
}

/// The color triple a coordinate and an in-block pixel position resolve to:
/// the pixel's palette index, looked up in the palette table.
pub open spec fn spec_color(
    cv5s: Seq<Seq<u16>>,
    vx4s: Seq<Seq<u16>>,
    vr4s: Seq<Seq<u8>>,
    wpes: Seq<(u8, u8, u8)>,
    g: int,
    s: int,
    pix: int,
) -> Option<(u8, u8, u8)> {
    match spec_minitile_pixels(cv5s, vx4s, vr4s, g, s) {
        Some(blk) => {
            if 0 <= pix < blk.len() {
                let i = blk[pix] as int;
                if i < wpes.len() {
                    Some(wpes[i])
                } else {
                    None
                }
            } else {
                None
            }
        },
        None => None,
    }
}

/// The five decoded tables, immutable once built, that the chain queries.
pub struct TileSet {
    pub cv5s: CV5s,
    pub vx4s: VX4s,
    pub vf4s: VF4s,
    pub vr4s: VR4s,
    pub wpes: WPEs,
}

impl TileSet {
    /// Bundles decoded tables for querying.
    pub fn new(cv5s: CV5s, vx4s: VX4s, vf4s: VF4s, vr4s: VR4s, wpes: WPEs) -> (r: TileSet)
        ensures
            r.cv5s == cv5s,
            r.vx4s == vx4s,
            r.vf4s == vf4s,
            r.vr4s == vr4s,
            r.wpes == wpes,
    {
        TileSet { cv5s, vx4s, vf4s, vr4s, wpes }
    }

    /// The flag path: the terrain-flag word for a megatile coordinate, or
    /// `OutOfRange` exactly when a lookup along the way is out of bounds.
    pub fn flags(&self, m: &MegaTile) -> (r: Result<VF4, OutOfRange>)
        ensures
            (match spec_flags(self.cv5s@, self.vf4s@, m@.0 as int, m@.1 as int) {
                Some(w) => r matches Ok(f) && f@ == w,
                None => r is Err,
            }),
    {
        let c = match self.cv5s.index(m) {
            Ok(c) => c,
            Err(e) => { return Err(e) },
        };
        let blk = match self.vf4s.index(&c) {
            Ok(b) => b,
            Err(e) => { return Err(e) },
        };
        let s = m.subtile_index();
        if s < blk.len() {
            Ok(blk[s])
        } else {
            Err(OutOfRange)
        }
    }

    /// The color path up to the pixel block: the 64 palette indices of the
    /// minitile image a coordinate selects, mirrored when the entry's mirror
    /// flag is set; `OutOfRange` exactly when a lookup along the way is out
    /// of bounds.
    pub fn minitile_pixels(&self, m: &MegaTile) -> (r: Result<Vec<u8>, OutOfRange>)
        requires
            self.vr4s.wf(),
        ensures
            (match spec_minitile_pixels(self.cv5s@, self.vx4s@, self.vr4s@, m@.0 as int, m@.1 as int) {
                Some(pix) => r matches Ok(v) && v@ == pix,
                None => r is Err,
            }),
    {
        let c = match self.cv5s.index(m) {
            Ok(c) => c,
            Err(e) => { return Err(e) },
        };
        let blk = match self.vx4s.index(&c) {
            Ok(b) => b,
            Err(e) => { return Err(e) },
        };
        let s = m.subtile_index();
        if s >= blk.len() {
            return Err(OutOfRange);
        }
        let entry: VX4 = blk[s];
        let pixels = match self.vr4s.index(&entry) {
            Ok(p) => p,
            Err(e) => { return Err(e) },
        };
        let ghost target: Seq<u8> = self.vr4s@[(entry@ >> 1) as int];
        proof {
            assert(vr4_seq_view(pixels@).len() == 64);
        }
        let mut out: Vec<u8> = Vec::new();
        if entry.is_horizontally_flipped() {
            let mut i: usize = 0;
            while i < 64
                invariant
                    i <= 64,
                    pixels@.len() == 64,
                    vr4_seq_view(pixels@) == target,
                    target.len() == 64,
                    out@.len() == i,
                    forall|j: int| 0 <= j < i ==> #[trigger] out@[j] == target[8 * (j / 8) + (7 - j
                        % 8)],
                decreases 64 - i,
            {
                let src = 8 * (i / 8) + (7 - i % 8);
                assert(src < 64);
                out.push(pixels[src].value());
                i += 1;
            }
            proof {
                assert(out@ =~= spec_mirror(target));
            }
        } else {
            let mut i: usize = 0;
            while i < 64
                invariant
                    i <= 64,
                    pixels@.len() == 64,
                    vr4_seq_view(pixels@) == target,
                    target.len() == 64,
                    out@.len() == i,
                    forall|j: int| 0 <= j < i ==> #[trigger] out@[j] == target[j],
                decreases 64 - i,
            {
                out.push(pixels[i].value());
                i += 1;
            }
            proof {
                assert(out@ =~= target);
            }
        }
        Ok(out)
    }

    /// The full color path: the raw color triple of one pixel of the
    /// resolved minitile image, or `OutOfRange` exactly when a lookup along
    /// the way (or the pixel's palette index) is out of bounds.
    pub fn color(&self, m: &MegaTile, pixel: usize) -> (r: Result<(u8, u8, u8), OutOfRange>)
        requires
            self.vr4s.wf(),
        ensures
            (match spec_color(
                self.cv5s@,
                self.vx4s@,
                self.vr4s@,
                self.wpes@,
                m@.0 as int,
                m@.1 as int,
                pixel as int,
            ) {
                Some(c) => r matches Ok(w) && w == c,
                None => r is Err,
            }),
    {
        let blk = match self.minitile_pixels(m) {
            Ok(b) => b,
            Err(e) => { return Err(e) },
        };
        if pixel >= blk.len() {
            return Err(OutOfRange);
        }
        let idx = blk[pixel];
        let w = match self.wpes.entry(idx) {
            Ok(w) => w,
            Err(e) => { return Err(e) },
        };
        Ok((w.r(), w.g(), w.b()))
    }
}

} // verus!
