//! Palette decoder: a flat table of RGB color triples, stored as repeating
//! 4-byte records whose fourth byte is unused padding.

use vstd::prelude::*;

use crate::error::DecodeError;
use crate::error::OutOfRange;
use crate::error::RecordKind;
use crate::vr4::VR4;

verus! {

/// One palette entry: a red, green, blue color triple.
#[derive(Clone, Copy, Debug)]
pub struct WPE {
    red: u8,
    green: u8,
    blue: u8,
}

impl View for WPE {
    type V = (u8, u8, u8);

    closed spec fn view(&self) -> (u8, u8, u8) {
        (self.red, self.green, self.blue)
    }
}

impl WPE {
    /// The red channel.
    pub fn r(&self) -> (c: u8)
        ensures
            c == self@.0,
    {
        self.red
    }

    /// The green channel.
    pub fn g(&self) -> (c: u8)
        ensures
            c == self@.1,
    {
        self.green
    }

    /// The blue channel.
    pub fn b(&self) -> (c: u8)
        ensures
            c == self@.2,
    {
        self.blue
    }

    /// Raw rgb values, without gamma correction.
    pub fn rgb(&self) -> (r: [u8; 3])
        ensures
            r@ == seq![self@.0, self@.1, self@.2],
    {
        [self.red, self.green, self.blue]
    }
}

/// The color triple stored in the `k`-th 4-byte palette record of `b`.
pub open spec fn palette_record(b: Seq<u8>, k: int) -> (u8, u8, u8)
    recommends
        0 <= k,
        4 * k + 4 <= b.len(),
{
    (b[4 * k], b[4 * k + 1], b[4 * k + 2])
}

/// The palette that a well-formed buffer `b` decodes to: one color triple
/// per whole 4-byte record.
pub open spec fn spec_palette(b: Seq<u8>) -> Seq<(u8, u8, u8)> {
    Seq::new((b.len() / 4) as nat, |k: int| palette_record(b, k))
}

/// The decoded palette table.
#[derive(Clone, Debug)]
pub struct WPEs(Vec<WPE>);

impl View for WPEs {
    type V = Seq<(u8, u8, u8)>;

    closed spec fn view(&self) -> Seq<(u8, u8, u8)> {
        self.0@.map_values(|w: WPE| w@)
    }
}

impl WPEs {
    /// How many entries the palette holds.
    pub fn len(&self) -> (n: usize)
        ensures
            n == self@.len(),
    {
        self.0.len()
    }

    /// The palette entry at a plain index, or `OutOfRange` when the index
    /// exceeds the palette's length.
    pub fn entry(&self, i: u8) -> (r: Result<WPE, OutOfRange>)
        ensures
            i < self@.len() ==> (r matches Ok(w) && w@ == self@[i as int]),
            i >= self@.len() ==> r is Err,
    {
        let idx = i as usize;
        if idx < self.0.len() {
            Ok(self.0[idx])
        } else {
            Err(OutOfRange)
        }
    }

    /// The palette entry that a pixel value selects, or `OutOfRange` when the
    /// value exceeds the palette's length.
    pub fn index(&self, vr4: &VR4) -> (r: Result<WPE, OutOfRange>)
        ensures
            vr4@ < self@.len() ==> (r matches Ok(w) && w@ == self@[vr4@ as int]),
            vr4@ >= self@.len() ==> r is Err,
    {
        self.entry(vr4.value())
    }
}

/// Decodes a palette buffer. Succeeds exactly when the length is a whole
/// number of 4-byte records, producing `b.len() / 4` entries; a buffer one
/// byte short of a final record is truncated input, and any other leftover
/// is trailing data.
pub fn parse_wpes(b: &Vec<u8>) -> (r: Result<WPEs, DecodeError>)
    ensures
        b@.len() % 4 == 0 ==> (r matches Ok(t) && t@ == spec_palette(b@) && t@.len() == b@.len()
            / 4),
        b@.len() % 4 == 3 ==> (r matches Err(e) && e == (DecodeError::TruncatedInput {
            offset: (b@.len() - 3) as usize,
            record: RecordKind::PaletteRecord,
        })),
        b@.len() % 4 != 0 && b@.len() % 4 != 3 ==> (r matches Err(e)
            && e == (DecodeError::TrailingData {
            offset: (b@.len() - b@.len() % 4) as usize,
            record: RecordKind::PaletteRecord,
        })),
{
    let n = b.len();
    let rem = n % 4;
    let consumed = n - rem;
    if rem == 3 {
        return Err(DecodeError::TruncatedInput { offset: consumed, record: RecordKind::PaletteRecord });
    }
    if rem != 0 {
        return Err(DecodeError::TrailingData { offset: consumed, record: RecordKind::PaletteRecord });
    }
    let total = n / 4;
    let mut entries: Vec<WPE> = Vec::new();
    let mut k: usize = 0;
    while k < total
        invariant
            k <= total,
            total == b.len() / 4,
            b.len() % 4 == 0,
            entries@.len() == k,
            forall|j: int| 0 <= j < k ==> #[trigger] entries@[j]@ == palette_record(b@, j),
        decreases total - k,
    {
        let off = 4 * k;
        let w = WPE { red: b[off], green: b[off + 1], blue: b[off + 2] };
        entries.push(w);
        k += 1;
    }
    proof {
        assert(entries@.map_values(|w: WPE| w@) =~= spec_palette(b@));
    }
    Ok(WPEs(entries))
}

/// Import adapter for palette buffers; a thin front for `parse_wpes`.
#[derive(Clone, Copy, Debug, Default)]
pub struct WPEFormat;

impl WPEFormat {
    /// The format's display name.
    pub fn name(&self) -> (r: &'static str)
        ensures
            r@ == "WPEFormat"@,
    {
        "WPEFormat"
    }

    /// Decodes an owned palette buffer, as `parse_wpes` does.
    pub fn import_simple(&self, bytes: Vec<u8>) -> (r: Result<WPEs, DecodeError>)
        ensures
            bytes@.len() % 4 == 0 ==> (r matches Ok(t) && t@ == spec_palette(bytes@)),
            bytes@.len() % 4 == 3 ==> (r matches Err(e) && e == (DecodeError::TruncatedInput {
                offset: (bytes@.len() - 3) as usize,
                record: RecordKind::PaletteRecord,
            })),
            bytes@.len() % 4 != 0 && bytes@.len() % 4 != 3 ==> (r matches Err(e)
                && e == (DecodeError::TrailingData {
                offset: (bytes@.len() - bytes@.len() % 4) as usize,
                record: RecordKind::PaletteRecord,
            })),
    {
        parse_wpes(&bytes)
    }
}

} // verus!
