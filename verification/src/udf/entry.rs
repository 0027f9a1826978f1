//! UDF file and directory entries: the errors of looking them up or of
//! reading their data, their names and their modification times.

use vstd::prelude::*;

use crate::datetime::{
    datetime_from_unix_timestamp, datetime_of_unix_timestamp, UNIX_TIMESTAMP_MAX,
    UNIX_TIMESTAMP_MIN,
};
use crate::text::{c_string_text, c_text, opt_bytes};
use crate::open::{null_reason, null_reason_text, OpenAttempt};

verus! {

/// could not get UDF entry at `{path}`
#[derive(Clone, Debug, PartialEq, Eq)]
pub struct UdfGetEntryError {
    path: String,
    reason: String,
}

impl UdfGetEntryError {
    /// The path of the entry within the image.
    pub closed spec fn spec_path(&self) -> Seq<char> {
        self.path@
    }

    /// Why the entry could not be had.
    pub closed spec fn spec_reason(&self) -> Seq<char> {
        self.reason@
    }

    /// The error for the entry at `path`, for the given reason.
    pub fn new(path: String, reason: String) -> (r: UdfGetEntryError)
        ensures
            r.spec_path() == path@,
            r.spec_reason() == reason@,
    {
        UdfGetEntryError { path, reason }
    }

    /// The path of the UDF entry that caused the error.
    pub fn path(&self) -> (r: &str)
        ensures
            r@ == self.spec_path(),
    {
        self.path.as_str()
    }

    /// Why the entry could not be had.
    pub fn reason(&self) -> (r: &str)
        ensures
            r@ == self.spec_reason(),
    {
        self.reason.as_str()
    }
}

/// What opening the entry at `path`, below the root, with the C function
/// `call` comes to.
/// Whatever the attempt came to, an error holds `path`.
pub fn udf_entry_result<H>(path: String, call: &str, attempt: OpenAttempt<H>) -> (r: Result<H, UdfGetEntryError>)
    ensures
        r matches Err(e) ==> e.spec_path() == path@,
        match attempt {
            OpenAttempt::Refused(reason) => r matches Err(e) && e.spec_reason() == reason@,
            OpenAttempt::Opened(h) => r matches Ok(x) && x == h,
            OpenAttempt::Failed => r matches Err(e) && e.spec_reason() == null_reason(call@),
        },
{
    match attempt {
        OpenAttempt::Refused(reason) => Err(UdfGetEntryError::new(path, reason)),
        OpenAttempt::Opened(h) => Ok(h),
        OpenAttempt::Failed => Err(UdfGetEntryError::new(path, null_reason_text(call))),
    }
}

/// What looking up the root directory comes to, given the handle that the
/// C function returned, if any: an error for `/` where there is none.
pub fn udf_root_result<H>(root: Option<H>) -> (r: Result<H, UdfGetEntryError>)
    ensures
        match root {
            Some(h) => r matches Ok(x) && x == h,
            None => r matches Err(e) && e.spec_path() == "/"@ && e.spec_reason() == null_reason(
                "udf_get_root"@,
            ),
        },
{
    match root {
        Some(h) => Ok(h),
        None => Err(UdfGetEntryError::new(String::from_str("/"), null_reason_text("udf_get_root"))),
    }
}

/// What is invalid about a UDF entry's data.
#[derive(Clone, Copy, Debug, PartialEq, Eq)]
pub enum InvalidEntryReason {
    /// The entry has no file name.
    MissingFilename,
    /// The file name is not well-formed UTF-8.
    FilenameNotUtf8,
    /// The entry has no valid modification time.
    MissingModificationTime,
    /// The modification time lies outside the range of dates that can be
    /// held.
    ModificationTimeOutOfRange,
}

/// found invalid data in UDF entry `{name}`
#[derive(Clone, Debug, PartialEq, Eq)]
pub struct UdfInvalidEntryError {
    name: Option<String>,
    reason: InvalidEntryReason,
}

/// The characters of an optional name.
pub open spec fn opt_chars(name: Option<String>) -> Option<Seq<char>> {
    match name {
        Some(s) => Some(s@),
        None => None,
    }
}

impl UdfInvalidEntryError {
    /// The file name of the entry, where it has one.
    pub closed spec fn spec_name(&self) -> Option<Seq<char>> {
        opt_chars(self.name)
    }

    /// What is invalid.
    pub closed spec fn spec_reason(&self) -> InvalidEntryReason {
        self.reason
    }

    /// The error for the entry named `name`, for the given reason.
    pub fn new(name: Option<String>, reason: InvalidEntryReason) -> (r: UdfInvalidEntryError)
        ensures
            r.spec_name() == opt_chars(name),
            r.spec_reason() == reason,
    {
        UdfInvalidEntryError { name, reason }
    }

    /// Returns file name of the entry with invalid data.
    pub fn name(&self) -> (r: Option<&str>)
        ensures
            r matches Some(s) ==> self.spec_name() == Some(s@),
            r is None ==> self.spec_name() is None,
    {
        match &self.name {
            Some(s) => Some(s.as_str()),
            None => None,
        }
    }

    /// What is invalid.
    pub fn reason(&self) -> (r: InvalidEntryReason)
        ensures
            r == self.spec_reason(),
    {
        self.reason
    }
}

/// The name of an entry from the C string that the filesystem gives for it
/// (`None` for a null pointer): an error where there is none or where it is
/// not well-formed UTF-8; "." for the empty name, which the root directory
/// has once opened; else the decoded name.
pub open spec fn udf_filename_of(raw: Option<Seq<u8>>) -> Result<Seq<char>, InvalidEntryReason> {
    match raw {
        None => Err(InvalidEntryReason::MissingFilename),
        Some(b) => if b.len() == 0 {
            Ok(seq!['.'])
        } else {
            match c_text(raw) {
                Some(t) => Ok(t),
                None => Err(InvalidEntryReason::FilenameNotUtf8),
            }
        },
    }
}

/// Returns the file name, from the C string that the filesystem gives for
/// the entry (`None` for a null pointer).
pub fn filename_from(raw: Option<&[u8]>) -> (r: Result<String, UdfInvalidEntryError>)
    ensures
        match (r, udf_filename_of(opt_bytes(raw))) {
            (Ok(s), Ok(t)) => s@ == t,
            (Err(e), Err(reason)) => e.spec_name() is None && e.spec_reason() == reason,
            _ => false,
        },
{
    let b = match raw {
        None => {
            return Err(UdfInvalidEntryError::new(None, InvalidEntryReason::MissingFilename));
        },
        Some(b) => b,
    };
    if b.len() == 0 {
        let dot = String::from_str(".");
        proof {
            reveal_strlit(".");
        }
        return Ok(dot);
    }
    match c_string_text(raw) {
        Some(s) => Ok(s),
        None => Err(UdfInvalidEntryError::new(None, InvalidEntryReason::FilenameNotUtf8)),
    }
}

/// The timestamp by which the filesystem says that an entry has no valid
/// modification time.
pub const NO_MODIFICATION_TIME: i64 = -1;

/// Returns the modification time, from the Unix timestamp that the
/// filesystem reports for the entry; `name` is the entry's name where it
/// has a valid one, for the error.
pub fn modify_time_from(time: i64, name: Option<String>) -> (r: Result<time::OffsetDateTime, UdfInvalidEntryError>)
    ensures
        r is Ok <==> time != NO_MODIFICATION_TIME && UNIX_TIMESTAMP_MIN <= time <= UNIX_TIMESTAMP_MAX,
        r matches Ok(d) ==> d == datetime_of_unix_timestamp(time),
        r matches Err(e) ==> e.spec_name() == opt_chars(name) && e.spec_reason() == (if time
            == NO_MODIFICATION_TIME {
            InvalidEntryReason::MissingModificationTime
        } else {
            InvalidEntryReason::ModificationTimeOutOfRange
        }),
{
    if time == NO_MODIFICATION_TIME {
        return Err(UdfInvalidEntryError::new(name, InvalidEntryReason::MissingModificationTime));
    }
    match datetime_from_unix_timestamp(time) {
        Ok(d) => Ok(d),
        Err(_) => Err(
            UdfInvalidEntryError::new(name, InvalidEntryReason::ModificationTimeOutOfRange),
        ),
    }
}

/// The name that an error about the entry carries: its name, where the
/// C string that the filesystem gives for it decodes to one.
pub open spec fn udf_error_name(raw: Option<Seq<u8>>) -> Option<Seq<char>> {
    match udf_filename_of(raw) {
        Ok(t) => Some(t),
        Err(_) => None,
    }
}

/// Returns the modification time of an entry, from the Unix timestamp that
/// the filesystem reports for it and the C string of its name (`None` for
/// a null pointer). An error names the entry where its name is valid.
pub fn entry_modify_time(time: i64, raw_name: Option<&[u8]>) -> (r: Result<time::OffsetDateTime, UdfInvalidEntryError>)
    ensures
        r is Ok <==> time != NO_MODIFICATION_TIME && UNIX_TIMESTAMP_MIN <= time <= UNIX_TIMESTAMP_MAX,
        r matches Ok(d) ==> d == datetime_of_unix_timestamp(time),
        r matches Err(e) ==> e.spec_name() == udf_error_name(opt_bytes(raw_name)) && e.spec_reason()
            == (if time == NO_MODIFICATION_TIME {
            InvalidEntryReason::MissingModificationTime
        } else {
            InvalidEntryReason::ModificationTimeOutOfRange
        }),
{
    let name = match filename_from(raw_name) {
        Ok(s) => Some(s),
        Err(_) => None,
    };
    modify_time_from(time, name)
}

/// A user or group id as a UDF file entry stores it: four bytes, least
/// significant first.
pub open spec fn le32(b: Seq<u8>) -> u32 {
    (b[0] as int + b[1] as int * 0x100 + b[2] as int * 0x10000 + b[3] as int * 0x1000000) as u32
}

/// The id stored little-endian in `bytes`.
pub fn id_from_le(bytes: [u8; 4]) -> (r: u32)
    ensures
        r == le32(bytes@),
{
    (bytes[0] as u32) + (bytes[1] as u32) * 0x100 + (bytes[2] as u32) * 0x10000 + (bytes[3] as u32)
        * 0x1000000
}

} // verus!
