//! The ISO 9660 filesystem: errors of opening an image, the Joliet level,
//! and, in the submodules, entries, CD-ROM XA and Rock Ridge attributes.

use vstd::prelude::*;

use crate::text::{c_string_lossy, utf8_lossy_decoded};
use crate::open::{null_reason, null_reason_text, OpenAttempt};

pub mod entry;
pub mod rock;
pub mod xa;

pub use self::entry::IsoGetEntryError;
pub use self::rock::{RockRidgeAttributes, RockRidgeSearchError};
pub use self::xa::{CdRomXa, XaFileAttributes};

verus! {

/// The number of bytes used by an ISO 9660 block.
pub const ISO_BLOCK_SIZE: usize = 2048;

/// could not open ISO 9660 file at `{path}`
#[derive(Clone, Debug, PartialEq, Eq)]
pub struct IsoOpenError {
    path: Vec<u8>,
    reason: String,
}

impl IsoOpenError {
    /// The path of the image, as the bytes of its platform encoding.
    pub closed spec fn spec_path(&self) -> Seq<u8> {
        self.path@
    }

    /// Why the image could not be opened.
    pub closed spec fn spec_reason(&self) -> Seq<char> {
        self.reason@
    }

    /// The error for the image at `path`, for the given reason.
    pub fn new(path: Vec<u8>, reason: String) -> (r: IsoOpenError)
        ensures
            r.spec_path() == path@,
            r.spec_reason() == reason@,
    {
        IsoOpenError { path, reason }
    }

    /// Returns the path of the ISO 9660 file.
    pub fn path(&self) -> (r: &[u8])
        ensures
            r@ == self.spec_path(),
    {
        self.path.as_slice()
    }

    /// Why the image could not be opened.
    pub fn reason(&self) -> (r: &str)
        ensures
            r@ == self.spec_reason(),
    {
        self.reason.as_str()
    }
}

/// What opening the image at `path` with the C function `call` comes to.
/// Whatever the attempt came to, an error holds `path`.
pub fn iso_open_result<H>(path: Vec<u8>, call: &str, attempt: OpenAttempt<H>) -> (r: Result<H, IsoOpenError>)
    ensures
        r matches Err(e) ==> e.spec_path() == path@,
        match attempt {
            OpenAttempt::Refused(reason) => r matches Err(e) && e.spec_reason() == reason@,
            OpenAttempt::Opened(h) => r matches Ok(x) && x == h,
            OpenAttempt::Failed => r matches Err(e) && e.spec_reason() == null_reason(call@),
        },
{
    match attempt {
        OpenAttempt::Refused(reason) => Err(IsoOpenError::new(path, reason)),
        OpenAttempt::Opened(h) => Ok(h),
        OpenAttempt::Failed => Err(IsoOpenError::new(path, null_reason_text(call))),
    }
}

/// Joliet level.
#[derive(Clone, Copy, Debug, PartialEq, Eq)]
pub enum JolietLevel {
    One,
    Two,
    Three,
}

impl JolietLevel {
    /// The level's number: 1, 2 or 3.
    pub open spec fn spec_code(self) -> u8 {
        match self {
            JolietLevel::One => 1,
            JolietLevel::Two => 2,
            JolietLevel::Three => 3,
        }
    }

    /// The level's number: 1, 2 or 3.
    pub fn code(self) -> (r: u8)
        ensures
            r == self.spec_code(),
    {
        match self {
            JolietLevel::One => 1,
            JolietLevel::Two => 2,
            JolietLevel::Three => 3,
        }
    }

    /// The level with number `v`, if there is one.
    pub fn from_code(v: u8) -> (r: Option<JolietLevel>)
        ensures
            r matches Some(l) ==> l.spec_code() == v,
            r is None <==> !(1 <= v <= 3),
    {
        if v == 1 {
            Some(JolietLevel::One)
        } else if v == 2 {
            Some(JolietLevel::Two)
        } else if v == 3 {
            Some(JolietLevel::Three)
        } else {
            None
        }
    }

    /// A level's number gives the level back.
    pub proof fn lemma_code_roundtrip(l: JolietLevel)
        ensures
            1 <= l.spec_code() <= 3,
            forall|m: JolietLevel| m.spec_code() == l.spec_code() ==> m == l,
    {
    }
}

/// The Joliet level of an image whose filesystem reports `raw`: none for
/// 0, else the level with that number. The filesystem reports no other
/// numbers than 0 to 3.
pub fn joliet_level_from(raw: u8) -> (r: Option<JolietLevel>)
    requires
        raw <= 3,
    ensures
        raw == 0 ==> r is None,
        raw != 0 ==> (r matches Some(l) && l.spec_code() == raw),
{
    if raw == 0 {
        return None;
    }
    JolietLevel::from_code(raw)
}

/// An identifier of the image's volume descriptor, from what the
/// filesystem reports: none unless it reports success and a string; else
/// the string's bytes decoded leniently.
pub fn identifier_from(success: bool, raw: Option<&[u8]>) -> (r: Option<String>)
    ensures
        r matches Some(s) ==> success && (raw matches Some(b) && s@ == utf8_lossy_decoded(b@)),
        r is None ==> !success || raw is None,
{
    if !success {
        return None;
    }
    match raw {
        Some(b) => Some(c_string_lossy(b)),
        None => None,
    }
}

} // verus!
