//! The UDF filesystem: the error of opening an image, and, in the
//! submodule, entries.

use vstd::prelude::*;

pub mod entry;

use crate::open::OpenAttempt;

pub use self::entry::{InvalidEntryReason, UdfGetEntryError, UdfInvalidEntryError};

verus! {

/// The number of bytes in a UDF block.
pub const UDF_BLOCK_SIZE: usize = 2048;

/// error opening UDF filesystem at `{path}`
#[derive(Clone, Debug, PartialEq, Eq)]
pub struct UdfOpenError {
    path: Vec<u8>,
    reason: Option<String>,
}

impl UdfOpenError {
    /// The path of the image, as the bytes of its platform encoding.
    pub closed spec fn spec_path(&self) -> Seq<u8> {
        self.path@
    }

    /// Why the image could not be opened, where a reason is known.
    pub closed spec fn spec_reason(&self) -> Option<Seq<char>> {
        match self.reason {
            Some(r) => Some(r@),
            None => None,
        }
    }

    /// The error for the image at `path`, with an optional reason.
    pub fn new(path: Vec<u8>, reason: Option<String>) -> (r: UdfOpenError)
        ensures
            r.spec_path() == path@,
            r.spec_reason() == match reason {
                Some(s) => Some(s@),
                None => None::<Seq<char>>,
            },
    {
        UdfOpenError { path, reason }
    }

    /// The path used to open the UDF file.
    pub fn path(self) -> (r: Vec<u8>)
        ensures
            r@ == self.spec_path(),
    {
        self.path
    }

    /// Why the image could not be opened, where a reason is known.
    pub fn reason(&self) -> (r: Option<&str>)
        ensures
            r matches Some(s) ==> self.spec_reason() == Some(s@),
            r is None ==> self.spec_reason() is None,
    {
        match &self.reason {
            Some(s) => Some(s.as_str()),
            None => None,
        }
    }
}

/// What opening the image at `path` comes to. Whatever the attempt came
/// to, an error holds `path`; where the path was refused, it also holds
/// the reason.
pub fn udf_open_result<H>(path: Vec<u8>, attempt: OpenAttempt<H>) -> (r: Result<H, UdfOpenError>)
    ensures
        r matches Err(e) ==> e.spec_path() == path@,
        match attempt {
            OpenAttempt::Refused(reason) => r matches Err(e) && e.spec_reason() == Some(reason@),
            OpenAttempt::Opened(h) => r matches Ok(x) && x == h,
            OpenAttempt::Failed => r matches Err(e) && e.spec_reason() is None,
        },
{
    match attempt {
        OpenAttempt::Refused(reason) => Err(UdfOpenError::new(path, Some(reason))),
        OpenAttempt::Opened(h) => Ok(h),
        OpenAttempt::Failed => Err(UdfOpenError::new(path, None)),
    }
}

} // verus!
