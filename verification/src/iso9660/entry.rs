//! ISO 9660 file and directory entries: the errors of looking them up and
//! the decoding of their names.

use vstd::prelude::*;
use vstd::utf8::{decode_utf8, valid_utf8};

use crate::text::decode_utf8_text;
use crate::open::{null_reason, null_reason_text, OpenAttempt};

verus! {

/// could not get ISO 9660 entry at `{path}`
#[derive(Clone, Debug, PartialEq, Eq)]
pub struct IsoGetEntryError {
    path: String,
    reason: String,
}

impl IsoGetEntryError {
    /// The path of the entry within the image.
    pub closed spec fn spec_path(&self) -> Seq<char> {
        self.path@
    }

    /// Why the entry could not be had.
    pub closed spec fn spec_reason(&self) -> Seq<char> {
        self.reason@
    }

    /// The error for the entry at `path`, for the given reason.
    pub fn new(path: String, reason: String) -> (r: IsoGetEntryError)
        ensures
            r.spec_path() == path@,
            r.spec_reason() == reason@,
    {
        IsoGetEntryError { path, reason }
    }

    /// Returns the path of the ISO 9660 entry.
    pub fn path(&self) -> (r: &str)
        ensures
            r@ == self.spec_path(),
    {
        self.path.as_str()
    }

    /// Why the entry could not be had.
    pub fn reason(&self) -> (r: &str)
        ensures
            r@ == self.spec_reason(),
    {
        self.reason.as_str()
    }
}

/// What looking up the entry or directory at `path` with the C function
/// `call` comes to.
/// Whatever the attempt came to, an error holds `path`.
pub fn iso_entry_result<H>(path: String, call: &str, attempt: OpenAttempt<H>) -> (r: Result<H, IsoGetEntryError>)
    ensures
        r matches Err(e) ==> e.spec_path() == path@,
        match attempt {
            OpenAttempt::Refused(reason) => r matches Err(e) && e.spec_reason() == reason@,
            OpenAttempt::Opened(h) => r matches Ok(x) && x == h,
            OpenAttempt::Failed => r matches Err(e) && e.spec_reason() == null_reason(call@),
        },
{
    match attempt {
        OpenAttempt::Refused(reason) => Err(IsoGetEntryError::new(path, reason)),
        OpenAttempt::Opened(h) => Ok(h),
        OpenAttempt::Failed => Err(IsoGetEntryError::new(path, null_reason_text(call))),
    }
}

/// The bytes of a translated name that the translation reports `len`
/// bytes long, in a buffer `buf`: the first `len` bytes, or all of them
/// where `len` (taken as a length) is not smaller than the buffer.
pub open spec fn translated_bytes(buf: Seq<u8>, len: i32) -> Seq<u8> {
    let n = (len as usize) as int;
    if n < buf.len() {
        buf.subrange(0, n)
    } else {
        buf
    }
}

/// The listing name of an entry from the buffer that name translation
/// filled, which reported `len`: the buffer cut to that length, decoded as
/// UTF-8; `None` where it is not well-formed.
pub fn translated_filename(buf: &[u8], len: i32) -> (r: Option<String>)
    ensures
        r is Some <==> valid_utf8(translated_bytes(buf@, len)),
        r matches Some(s) ==> s@ == decode_utf8(translated_bytes(buf@, len)),
{
    let n: usize = #[verifier::truncate] (len as usize);
    if n < buf.len() {
        decode_utf8_text(&buf[0..n])
    } else {
        decode_utf8_text(buf)
    }
}

} // verus!
