//! The arguments of the drive inspector.

use vstd::prelude::*;

verus! {

/// Show information about a disc drive.
#[derive(Clone, Debug, PartialEq, Eq)]
pub struct Cli {
    /// Path to a disc drive.
    pub drive: DriveArg,
}

/// Path to a disc drive, given as an option or as a positional argument
/// (each as the bytes of its platform encoding).
#[derive(Clone, Debug, PartialEq, Eq)]
pub struct DriveArg {
    /// Path to a disc drive.
    pub option: Option<Vec<u8>>,
    /// Path to a disc drive.
    pub positional: Option<Vec<u8>>,
}

impl DriveArg {
    /// The drive to inspect: the positional path where there is one, else
    /// the option's; none means every drive.
    pub fn drive(&self) -> (r: Option<&Vec<u8>>)
        ensures
            r == match self.positional {
                Some(p) => Some(&p),
                None => match self.option {
                    Some(o) => Some(&o),
                    None => None,
                },
            },
    {
        match &self.positional {
            Some(p) => Some(p),
            None => match &self.option {
                Some(o) => Some(o),
                None => None,
            },
        }
    }
}

} // verus!
