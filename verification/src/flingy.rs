//! Columnar unit-statistics decoder: seven fixed-width columns of 209
//! entries each, stored column after column, read back into one row per
//! entry. The sixth column is unknown and skipped.

use vstd::prelude::*;

use crate::bytes::le16;
use crate::bytes::le32;
use crate::bytes::read_le16;
use crate::bytes::read_le32;
use crate::error::DecodeError;
use crate::error::RecordKind;

verus! {

/// Every column of the stats table holds exactly this many entries.
pub const STATS_COUNT: usize = 209;

/// The exact byte length of the stats table: two 2-byte columns, two 4-byte
/// columns and three 1-byte columns of 209 entries each.
pub const STATS_TABLE_LEN: usize = 3135;

/// One row of the stats table.
#[derive(Clone, Copy, Debug, PartialEq, Eq, Structural)]
pub struct Flingy {
    pub sprite: u16,
    pub top_speed: u32,
    pub acceleration: u16,
    pub halt_distance: u32,
    pub turn_radius: u8,
    pub move_control: u8,
}

/// The `i`-th row of the stats table stored in `b`, gathered from the seven
/// columns (the unknown sixth column, at bytes 2717..2926, is skipped).
pub open spec fn spec_flingy(b: Seq<u8>, i: int) -> Flingy
    recommends
        0 <= i < 209,
        b.len() == 3135,
{
    Flingy {
        sprite: le16(b, 2 * i),
        top_speed: le32(b, 418 + 4 * i),
        acceleration: le16(b, 1254 + 2 * i),
        halt_distance: le32(b, 1672 + 4 * i),
        turn_radius: b[2508 + i],
        move_control: b[2926 + i],
    }
}

/// The whole decoded stats table of a well-formed buffer.
pub open spec fn spec_flingy_dat(b: Seq<u8>) -> Seq<Flingy> {
    Seq::new(209, |i: int| spec_flingy(b, i))
}

/// Where decoding a too-short stats buffer stops: the start of the first
/// column element that the buffer does not fully contain.
pub open spec fn dat_truncation_offset(n: int) -> int
    recommends
        0 <= n < 3135,
{
    if n < 418 {
        2 * (n / 2)
    } else if n < 1254 {
        418 + 4 * ((n - 418) / 4)
    } else if n < 1672 {
        1254 + 2 * ((n - 1254) / 2)
    } else if n < 2508 {
        1672 + 4 * ((n - 1672) / 4)
    } else {
        n
    }
}

/// The decoded stats table.
#[derive(Clone, Debug)]
pub struct FlingyDat(Vec<Flingy>);

impl View for FlingyDat {
    type V = Seq<Flingy>;

    closed spec fn view(&self) -> Seq<Flingy> {
        self.0@
    }
}

impl FlingyDat {
    /// How many rows the table holds.
    pub fn len(&self) -> (n: usize)
        ensures
            n == self@.len(),
    {
        self.0.len()
    }

    /// The row at `i`, or `None` past the end of the table.
    pub fn get(&self, i: usize) -> (r: Option<Flingy>)
        ensures
            i < self@.len() ==> (r matches Some(f) && f == self@[i as int]),
            i >= self@.len() ==> r is None,
    {
        if i < self.0.len() {
            Some(self.0[i])
        } else {
            None
        }
    }
}

/// Decodes a stats buffer. Succeeds exactly on the table's full fixed
/// length; a shorter buffer is truncated input at the first incomplete
/// column element, and a longer one has trailing data after the table.
pub fn parse_flingy_dat(b: &Vec<u8>) -> (r: Result<FlingyDat, DecodeError>)
    ensures
        b@.len() == 3135 ==> (r matches Ok(t) && t@ == spec_flingy_dat(b@) && t@.len() == 209),
        b@.len() < 3135 ==> (r matches Err(e) && e == (DecodeError::TruncatedInput {
            offset: dat_truncation_offset(b@.len() as int) as usize,
            record: RecordKind::StatsColumnElement,
        })),
        b@.len() > 3135 ==> (r matches Err(e) && e == (DecodeError::TrailingData {
            offset: 3135,
            record: RecordKind::StatsColumnElement,
        })),
{
    let n = b.len();
    if n < STATS_TABLE_LEN {
        let offset = if n < 418 {
            2 * (n / 2)
        } else if n < 1254 {
            418 + 4 * ((n - 418) / 4)
        } else if n < 1672 {
            1254 + 2 * ((n - 1254) / 2)
        } else if n < 2508 {
            1672 + 4 * ((n - 1672) / 4)
        } else {
            n
        };
        return Err(DecodeError::TruncatedInput {
            offset,
            record: RecordKind::StatsColumnElement,
        });
    }
    if n > STATS_TABLE_LEN {
        return Err(DecodeError::TrailingData {
            offset: STATS_TABLE_LEN,
            record: RecordKind::StatsColumnElement,
        });
    }
    let mut rows: Vec<Flingy> = Vec::new();
    let mut i: usize = 0;
    while i < STATS_COUNT
        invariant
            i <= 209,
            b.len() == 3135,
            rows@.len() == i,
            forall|j: int| 0 <= j < i ==> #[trigger] rows@[j] == spec_flingy(b@, j),
        decreases 209 - i,
    {
        let row = Flingy {
            sprite: read_le16(b, 2 * i),
            top_speed: read_le32(b, 418 + 4 * i),
            acceleration: read_le16(b, 1254 + 2 * i),
            halt_distance: read_le32(b, 1672 + 4 * i),
            turn_radius: b[2508 + i],
            move_control: b[2926 + i],
        };
        rows.push(row);
        i += 1;
    }
    let t = FlingyDat(rows);
    proof {
        assert(t@ =~= spec_flingy_dat(b@));
    }
    Ok(t)
}

/// An opaque reference into the stats table, as the surrounding systems pass
/// it around.
#[derive(Clone, Debug)]
pub struct FlingyPointer(u32);

impl View for FlingyPointer {
    type V = u32;

    closed spec fn view(&self) -> u32 {
        self.0
    }
}

impl FlingyPointer {
    /// Wraps a raw index value.
    pub fn new(p: u32) -> (r: FlingyPointer)
        ensures
            r@ == p,
    {
        FlingyPointer(p)
    }
}

/// A decoded stats table in a slot that its consumer empties exactly once.
#[derive(Debug)]
pub struct FlingyDatAsset(Option<FlingyDat>);

impl View for FlingyDatAsset {
    type V = Option<Seq<Flingy>>;

    closed spec fn view(&self) -> Option<Seq<Flingy>> {
        match self.0 {
            Some(d) => Some(d@),
            None => None,
        }
    }
}

impl FlingyDatAsset {
    /// Moves the table out of the slot, leaving it empty.
    pub fn take(&mut self) -> (r: Option<FlingyDat>)
        ensures
            (match r {
                Some(d) => old(self)@ == Some(d@),
                None => old(self)@ is None,
            }),
            final(self)@ is None,
    {
        self.0.take()
    }
}

/// Import adapter for stats buffers; a thin front for `parse_flingy_dat`
/// that leaves the table in a slot for its consumer to take.
#[derive(Clone, Copy, Debug, Default)]
pub struct FlingyDatFormat;

impl FlingyDatFormat {
    /// The format's display name.
    pub fn name(&self) -> (r: &'static str)
        ensures
            r@ == "FlingyDatFormat"@,
    {
        "FlingyDatFormat"
    }

    /// Decodes an owned stats buffer, as `parse_flingy_dat` does.
    pub fn import_simple(&self, b: Vec<u8>) -> (r: Result<FlingyDatAsset, DecodeError>)
        ensures
            b@.len() == 3135 ==> (r matches Ok(a) && a@ == Some(spec_flingy_dat(b@))),
            b@.len() < 3135 ==> (r matches Err(e) && e == (DecodeError::TruncatedInput {
                offset: dat_truncation_offset(b@.len() as int) as usize,
                record: RecordKind::StatsColumnElement,
            })),
            b@.len() > 3135 ==> (r matches Err(e) && e == (DecodeError::TrailingData {
                offset: 3135,
                record: RecordKind::StatsColumnElement,
            })),
    {
        let dat = match parse_flingy_dat(&b) {
            Ok(d) => d,
            Err(e) => { return Err(e) },
        };
        Ok(FlingyDatAsset(Some(dat)))
    }
}

} // verus!
