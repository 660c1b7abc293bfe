//! The device record: one row of a capture file's `devices` table.
use vstd::prelude::*;
use crate::json::{Json, is_empty_object, probed_ssids_in, probed_ssids_of, texts};
use crate::text::{normalize_device_type, normalized};
use crate::value::{json_accepts, json_doc, parse_metadata, utf8_lossy};

verus! {

#[verifier::external_type_specification]
#[verifier::external_body]
pub struct ExRow<'stmt>(rusqlite::Row<'stmt>);

#[verifier::external_type_specification]
#[verifier::external_body]
pub struct ExSqlError(rusqlite::Error);

/// Column of the first-seen time, in seconds since the Unix epoch.
pub const FIRST_TIME_COLUMN: usize = 0;

/// Column of the last-seen time, in seconds since the Unix epoch.
pub const LAST_TIME_COLUMN: usize = 1;

/// Column of the device's MAC address.
pub const IDENTIFIER_COLUMN: usize = 4;

/// Column of the device type.
pub const TYPE_COLUMN: usize = 13;

/// Column of the JSON metadata blob.
pub const METADATA_COLUMN: usize = 14;

/// The earliest count of seconds since the Unix epoch that chrono represents
/// (January 1 of the astronomical year -262143, midnight UTC).
pub const MIN_TIMESTAMP: i64 = -8334601228800;

/// The latest count of seconds since the Unix epoch that chrono represents
/// (December 31, 262142 CE, 23:59:59 UTC).
pub const MAX_TIMESTAMP: i64 = 8210266876799;

/// Whether chrono represents a count of seconds since the Unix epoch as a
/// UTC date and time.
pub open spec fn timestamp_in_range(secs: int) -> bool {
    MIN_TIMESTAMP <= secs <= MAX_TIMESTAMP
}

/// The seconds of the instant read from a time column: the epoch when the
/// column held no integer or one out of range.
pub open spec fn epoch_secs(t: Option<i64>) -> i64 {
    match t {
        Some(secs) => if timestamp_in_range(secs as int) {
            secs
        } else {
            0
        },
        None => 0,
    }
}

/// Relies on `chrono::DateTime::<Utc>::from_timestamp` and
/// `DateTime::timestamp`: a count of seconds is out of chrono's range, which
/// runs from `NaiveDate::MIN` to the last second of `NaiveDate::MAX`, or
/// becomes an instant whose timestamp is that count.
#[verifier::external_body]
fn chrono_timestamp(secs: i64) -> (r: Option<i64>)
    ensures
        r is Some == timestamp_in_range(secs as int),
        r matches Some(t) ==> t == secs,
{
    chrono::DateTime::<chrono::Utc>::from_timestamp(secs, 0).map(|t| t.timestamp())
}

/// Relies on `rusqlite::Row::get_ref` and `ValueRef::as_i64`: a missing
/// column is an error, and a value other than an integer reads as `None`.
#[verifier::external_body]
fn row_int(row: &rusqlite::Row, idx: usize) -> (r: Result<Option<i64>, rusqlite::Error>) {
    let v = row.get_ref(idx)?;
    Ok(v.as_i64().ok())
}

/// Relies on `rusqlite::Row::get::<usize, String>`: reads a text column.
#[verifier::external_body]
fn row_text(row: &rusqlite::Row, idx: usize) -> (r: Result<String, rusqlite::Error>) {
    row.get::<usize, String>(idx)
}

/// Relies on `rusqlite::Row::get::<usize, Option<Vec<u8>>>`: reads a blob
/// column that may be NULL.
#[verifier::external_body]
fn row_blob(row: &rusqlite::Row, idx: usize) -> (r: Result<Option<Vec<u8>>, rusqlite::Error>) {
    row.get::<usize, Option<Vec<u8>>>(idx)
}

/// An instant in UTC, as whole seconds since the Unix epoch.
#[derive(Debug, Clone, Copy, PartialEq, Eq)]
pub struct UtcTime {
    pub secs: i64,
}

impl UtcTime {
    /// The instant `secs` seconds after the epoch, or the epoch itself when
    /// chrono cannot represent it.
    pub fn from_epoch(secs: i64) -> (r: UtcTime)
        ensures
            r.secs == if timestamp_in_range(secs as int) {
                secs
            } else {
                0
            },
    {
        match chrono_timestamp(secs) {
            Some(t) => UtcTime { secs: t },
            None => UtcTime { secs: 0 },
        }
    }
}

/// One device seen in a capture.
#[derive(Debug)]
pub struct KismetDevice {
    pub identifier: String,
    pub first_time: UtcTime,
    pub last_time: UtcTime,
    pub device_type: String,
    pub metadata: Json,
}

impl KismetDevice {
    /// Builds a record from the values of the significant columns: a time
    /// column that held no integer is `None`, and so is a NULL metadata blob.
    /// The two times may come in either order.
    pub fn from_columns(
        first_time: Option<i64>,
        last_time: Option<i64>,
        identifier: String,
        device_type: &str,
        blob: Option<&[u8]>,
    ) -> (r: KismetDevice)
        ensures
            r.identifier@ == identifier@,
            r.first_time.secs == epoch_secs(first_time),
            r.last_time.secs == epoch_secs(last_time),
            r.device_type@ == normalized(device_type@),
            blob is None ==> is_empty_object(r.metadata),
            blob matches Some(b) ==> (json_accepts(utf8_lossy(b@)) ==> r.metadata == json_doc(
                utf8_lossy(b@),
            )),
            blob matches Some(b) ==> (!json_accepts(utf8_lossy(b@)) ==> is_empty_object(
                r.metadata,
            )),
    {
        let first_time = match first_time {
            Some(secs) => UtcTime::from_epoch(secs),
            None => UtcTime { secs: 0 },
        };
        let last_time = match last_time {
            Some(secs) => UtcTime::from_epoch(secs),
            None => UtcTime { secs: 0 },
        };
        let metadata = match blob {
            Some(b) => parse_metadata(b),
            None => Json::empty_object(),
        };
        KismetDevice {
            identifier,
            first_time,
            last_time,
            device_type: normalize_device_type(device_type),
            metadata,
        }
    }

    /// Builds a record from a row of the `devices` table; a missing column,
    /// or a text column of the wrong type, is an error.
    pub fn from_row(row: &rusqlite::Row) -> (r: Result<KismetDevice, rusqlite::Error>)
        ensures
            r matches Ok(d) ==> exists|t: Seq<char>| d.device_type@ == normalized(t),
            r matches Ok(d) ==> timestamp_in_range(d.first_time.secs as int),
            r matches Ok(d) ==> timestamp_in_range(d.last_time.secs as int),
    {
        let first_time = row_int(row, FIRST_TIME_COLUMN)?;
        let last_time = row_int(row, LAST_TIME_COLUMN)?;
        let identifier = row_text(row, IDENTIFIER_COLUMN)?;
        let device_type = row_text(row, TYPE_COLUMN)?;
        let blob = row_blob(row, METADATA_COLUMN)?;
        let d = KismetDevice::from_columns(
            first_time,
            last_time,
            identifier,
            device_type.as_str(),
            match &blob {
                Some(b) => Some(b.as_slice()),
                None => None,
            },
        );
        assert(d.device_type@ == normalized(device_type@));
        Ok(d)
    }

    /// Every network name that this device's metadata records as probed for.
    pub fn probed_ssids(&self) -> (r: Vec<String>)
        ensures
            texts(r@) == probed_ssids_of(self.metadata),
    {
        probed_ssids_in(&self.metadata)
    }
}

} // verus!
