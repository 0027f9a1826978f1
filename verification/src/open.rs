//! The outcome of opening a drive, an image or an entry by its path.

use vstd::prelude::*;

verus! {

/// What an attempt to open something by its path came to.
pub enum OpenAttempt<H> {
    /// The path was refused before the library was called, for `reason`
    /// (a path that holds a NUL byte cannot be handed to C).
    Refused(String),
    /// The library returned the handle `H`.
    Opened(H),
    /// The library returned no handle.
    Failed,
}

/// The reason given where the C function `call` returned no handle.
pub open spec fn null_reason(call: Seq<char>) -> Seq<char> {
    call + "() returned NULL"@
}

/// The text of [`null_reason`].
pub fn null_reason_text(call: &str) -> (r: String)
    ensures
        r@ == null_reason(call@),
{
    let mut r = String::from_str(call);
    r.append("() returned NULL");
    r
}

} // verus!
