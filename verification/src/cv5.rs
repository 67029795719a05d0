//! Megatile-reference table decoder: per group, a fixed 20-byte header
//! (opaque, skipped unparsed) followed by exactly 16 little-endian 2-byte
//! references into the image-reference and flag tables.

use vstd::prelude::*;

use crate::bytes::le16;
use crate::bytes::read_le16;
use crate::error::DecodeError;
use crate::error::OutOfRange;
use crate::error::RecordKind;
use crate::megatile::MegaTile;

verus! {

/// Each megatile group holds 16 (4x4) minitile references.
pub const MEGA_TILE_REFERENCE_COUNT: usize = 16;

/// The opaque per-group header is 20 bytes; the source format stores group
/// flags there, which this decoder deliberately leaves unparsed.
pub const GROUP_HEADER_LEN: usize = 20;

/// One group is its header plus 16 two-byte references.
pub const GROUP_LEN: usize = 52;

/// One megatile reference: an index into the image-reference table and,
/// independently, into the flag table.
#[derive(Clone, Copy, Debug)]
pub struct CV5(u16);

impl View for CV5 {
    type V = u16;

    closed spec fn view(&self) -> u16 {
        self.0
    }
}

impl CV5 {
    /// The reference value as a plain number.
    pub fn value(&self) -> (r: u16)
        ensures
            r == self@,
    {
        self.0
    }
}

/// The references of a group as plain values.
pub open spec fn cv5_seq_view(s: Seq<CV5>) -> Seq<u16> {
    s.map_values(|x: CV5| x@)
}

/// The reference groups that a well-formed buffer `b` decodes to: one group
/// of 16 references per whole 52 bytes, each group's 20 header bytes
/// skipped.
pub open spec fn spec_cv5s(b: Seq<u8>) -> Seq<Seq<u16>> {
    Seq::new((b.len() / 52) as nat, |g: int| Seq::new(16, |i: int| le16(b, 52 * g + 20 + 2 * i)))
}

/// The decoded megatile-reference table.
#[derive(Clone, Debug)]
pub struct CV5s(Vec<Vec<CV5>>);

impl View for CV5s {
    type V = Seq<Seq<u16>>;

    closed spec fn view(&self) -> Seq<Seq<u16>> {
        self.0@.map_values(|grp: Vec<CV5>| cv5_seq_view(grp@))
    }
}

impl CV5s {
    /// How many groups the table holds.
    pub fn len(&self) -> (n: usize)
        ensures
            n == self@.len(),
    {
        self.0.len()
    }

    /// The reference a megatile coordinate selects, or `OutOfRange` when the
    /// group index exceeds the table's length (the subtile position is
    /// always within the group's 16 references).
    pub fn index(&self, megatile: &MegaTile) -> (r: Result<CV5, OutOfRange>)
        ensures
            megatile@.0 < self@.len() && megatile@.1 < self@[megatile@.0 as int].len() ==> (
            r matches Ok(c) && c@ == self@[megatile@.0 as int][megatile@.1 as int]),
            !(megatile@.0 < self@.len() && megatile@.1 < self@[megatile@.0 as int].len())
                ==> r is Err,
    {
        let g = megatile.group_index();
        if g < self.0.len() {
            let grp = &self.0[g];
            let s = megatile.subtile_index();
            if s < grp.len() {
                Ok(grp[s])
            } else {
                Err(OutOfRange)
            }
        } else {
            Err(OutOfRange)
        }
    }
}

/// Decodes a megatile-reference buffer. Succeeds exactly when the length is
/// a whole number of 52-byte groups, producing `b.len() / 52` groups; a
/// buffer one byte short of a final group is truncated input, and any other
/// leftover is trailing data.
pub fn parse_cv5s(b: &Vec<u8>) -> (r: Result<CV5s, DecodeError>)
    ensures
        b@.len() % 52 == 0 ==> (r matches Ok(t) && t@ == spec_cv5s(b@) && t@.len() == b@.len()
            / 52),
        b@.len() % 52 == 51 ==> (r matches Err(e) && e == (DecodeError::TruncatedInput {
            offset: (b@.len() - 51) as usize,
            record: RecordKind::MegatileGroup,
        })),
        b@.len() % 52 != 0 && b@.len() % 52 != 51 ==> (r matches Err(e)
            && e == (DecodeError::TrailingData {
            offset: (b@.len() - b@.len() % 52) as usize,
            record: RecordKind::MegatileGroup,
        })),
{
    let n = b.len();
    let rem = n % GROUP_LEN;
    let consumed = n - rem;
    if rem == 51 {
        return Err(DecodeError::TruncatedInput {
            offset: consumed,
            record: RecordKind::MegatileGroup,
        });
    }
    if rem != 0 {
        return Err(DecodeError::TrailingData {
            offset: consumed,
            record: RecordKind::MegatileGroup,
        });
    }
    let total = n / GROUP_LEN;
    let mut groups: Vec<Vec<CV5>> = Vec::new();
    let mut g: usize = 0;
    while g < total
        invariant
            g <= total,
            total == b.len() / 52,
            b.len() % 52 == 0,
            groups@.len() == g,
            forall|gi: int| 0 <= gi < g ==> cv5_seq_view(#[trigger] groups@[gi]@) == spec_cv5s(
                b@,
            )[gi],
        decreases total - g,
    {
        let base = GROUP_LEN * g + GROUP_HEADER_LEN;
        let mut grp: Vec<CV5> = Vec::new();
        let mut i: usize = 0;
        while i < MEGA_TILE_REFERENCE_COUNT
            invariant
                i <= 16,
                g < total,
                total == b.len() / 52,
                b.len() % 52 == 0,
                base == 52 * g + 20,
                grp@.len() == i,
                forall|j: int| 0 <= j < i ==> #[trigger] grp@[j]@ == le16(b@, 52 * g + 20 + 2 * j),
            decreases 16 - i,
        {
            grp.push(CV5(read_le16(b, base + 2 * i)));
            i += 1;
        }
        proof {
            assert(cv5_seq_view(grp@) =~= spec_cv5s(b@)[g as int]);
        }
        groups.push(grp);
        g += 1;
    }
    let t = CV5s(groups);
    proof {
        assert(t@ =~= spec_cv5s(b@));
    }
    Ok(t)
}

/// Import adapter for megatile-reference buffers; a thin front for
/// `parse_cv5s`.
#[derive(Clone, Copy, Debug, Default)]
pub struct CV5Format;

impl CV5Format {
    /// The format's display name.
    pub fn name(&self) -> (r: &'static str)
        ensures
            r@ == "CV5Format"@,
    {
        "CV5Format"
    }

    /// Decodes an owned megatile-reference buffer, as `parse_cv5s` does.
    pub fn import_simple(&self, bytes: Vec<u8>) -> (r: Result<CV5s, DecodeError>)
        ensures
            bytes@.len() % 52 == 0 ==> (r matches Ok(t) && t@ == spec_cv5s(bytes@)),
            bytes@.len() % 52 == 51 ==> (r matches Err(e) && e == (DecodeError::TruncatedInput {
                offset: (bytes@.len() - 51) as usize,
                record: RecordKind::MegatileGroup,
            })),
            bytes@.len() % 52 != 0 && bytes@.len() % 52 != 51 ==> (r matches Err(e)
                && e == (DecodeError::TrailingData {
                offset: (bytes@.len() - bytes@.len() % 52) as usize,
                record: RecordKind::MegatileGroup,
            })),
    {
        parse_cv5s(&bytes)
    }
}

} // verus!
