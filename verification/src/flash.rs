//! Flash messages on the read side: stored rows become messages, and a row
//! with a missing field is left out with a warning.

use vstd::prelude::*;

verus! {

/// Why a stored flash was left out.
#[derive(Clone, Copy, Debug, PartialEq, Eq, Structural)]
pub enum FlashWarning {
    /// The row has no identifier.
    MissingId,
    /// The row has no contents.
    MissingContents,
    /// The row has no creation time.
    MissingCreationTime,
}

/// A flash as it comes out of storage: any field may be missing.
#[derive(Debug)]
pub struct StoredFlash {
    pub id: Option<i64>,
    pub contents: Option<String>,
    pub created_at: Option<i32>,
}

/// What a flash holds, as mathematical values.
pub struct FlashView {
    pub id: int,
    pub contents: Seq<char>,
    pub created_at: int,
}

/// A message shown until it is dismissed.
#[derive(Debug)]
pub struct Flash {
    pub id: i64,
    pub contents: String,
    pub created_at: i32,
}

impl View for Flash {
    type V = FlashView;

    open spec fn view(&self) -> FlashView {
        FlashView {
            id: self.id as int,
            contents: self.contents@,
            created_at: self.created_at as int,
        }
    }
}

/// The mathematical values of a run of flashes, in order.
pub open spec fn view_flashes(flashes: Seq<Flash>) -> Seq<FlashView> {
    Seq::new(flashes.len(), |i: int| flashes[i]@)
}

/// What becomes of one stored flash: the message, or the first field, in the
/// order identifier, contents, creation time, that is missing.
pub open spec fn spec_decode_flash(row: StoredFlash) -> Result<FlashView, FlashWarning> {
    if row.id is None {
        Err(FlashWarning::MissingId)
    } else if row.contents is None {
        Err(FlashWarning::MissingContents)
    } else if row.created_at is None {
        Err(FlashWarning::MissingCreationTime)
    } else {
        Ok(
            FlashView {
                id: row.id->0 as int,
                contents: row.contents->0@,
                created_at: row.created_at->0 as int,
            },
        )
    }
}

/// The messages that a run of rows yields, in the order of the rows.
pub open spec fn spec_decoded_flashes(rows: Seq<StoredFlash>) -> Seq<FlashView>
    decreases rows.len(),
{
    if rows.len() == 0 {
        Seq::empty()
    } else {
        match spec_decode_flash(rows.last()) {
            Ok(flash) => spec_decoded_flashes(rows.drop_last()).push(flash),
            Err(_) => spec_decoded_flashes(rows.drop_last()),
        }
    }
}

/// The warnings that a run of rows yields, in the order of the rows.
pub open spec fn spec_flash_warnings(rows: Seq<StoredFlash>) -> Seq<FlashWarning>
    decreases rows.len(),
{
    if rows.len() == 0 {
        Seq::empty()
    } else {
        match spec_decode_flash(rows.last()) {
            Ok(_) => spec_flash_warnings(rows.drop_last()),
            Err(warning) => spec_flash_warnings(rows.drop_last()).push(warning),
        }
    }
}

/// Reads one stored flash; the first missing field names the warning.
pub fn decode_flash(row: &StoredFlash) -> (decoded: Result<Flash, FlashWarning>)
    ensures
        match decoded {
            Ok(flash) => spec_decode_flash(*row) == Ok::<FlashView, FlashWarning>(flash@),
            Err(warning) => spec_decode_flash(*row) == Err::<FlashView, FlashWarning>(warning),
        },
{
    let id = match row.id {
        Some(id) => id,
        None => {
            return Err(FlashWarning::MissingId);
        },
    };
    let contents = match &row.contents {
        Some(contents) => contents.clone(),
        None => {
            return Err(FlashWarning::MissingContents);
        },
    };
    let created_at = match row.created_at {
        Some(created_at) => created_at,
        None => {
            return Err(FlashWarning::MissingCreationTime);
        },
    };
    Ok(Flash { id, contents, created_at })
}

/// The flashes that can be shown, and a warning for each row left out.
#[derive(Debug)]
pub struct FlashListing {
    pub flashes: Vec<Flash>,
    pub warnings: Vec<FlashWarning>,
}

/// Reads a run of stored flashes: each row becomes a message or a warning,
/// and both keep the order of the rows.
pub fn collect_flashes(rows: &Vec<StoredFlash>) -> (listing: FlashListing)
    ensures
        view_flashes(listing.flashes@) == spec_decoded_flashes(rows@),
        listing.warnings@ == spec_flash_warnings(rows@),
        listing.flashes.len() + listing.warnings.len() == rows.len(),
{
    let mut flashes: Vec<Flash> = Vec::new();
    let mut warnings: Vec<FlashWarning> = Vec::new();
    let mut i: usize = 0;
    while i < rows.len()
        invariant
            i <= rows.len(),
            flashes.len() + warnings.len() == i,
            view_flashes(flashes@) == spec_decoded_flashes(rows@.take(i as int)),
            warnings@ == spec_flash_warnings(rows@.take(i as int)),
        decreases rows.len() - i,
    {
        assert(rows@.take(i + 1).drop_last() =~= rows@.take(i as int));
        match decode_flash(&rows[i]) {
            Ok(flash) => {
                flashes.push(flash);
            },
            Err(warning) => {
                warnings.push(warning);
            },
        }
        i = i + 1;
    }
    assert(rows@.take(rows.len() as int) =~= rows@);
    FlashListing { flashes, warnings }
}

} // verus!
