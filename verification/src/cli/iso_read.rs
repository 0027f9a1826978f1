//! The arguments of the image extractor.

use vstd::prelude::*;

verus! {

/// Extract files from ISO 9660 and UDF files.
#[derive(Clone, Debug, PartialEq, Eq)]
pub struct Cli {
    /// Path to the file in the image to extract
    pub extract: Vec<u8>,
    /// Path to an ISO9660 and/or UDF image
    pub image: FileArg,
    /// Path of the output file. Defaults to name of the extracted file.
    pub output_file: Option<Vec<u8>>,
    /// Use UDF
    pub udf: bool,
}

/// Path to an ISO9660 and/or UDF image, given as an option or as a
/// positional argument (each as the bytes of its platform encoding).
#[derive(Clone, Debug, PartialEq, Eq)]
pub struct FileArg {
    /// Path to an ISO9660 and/or UDF image
    pub option: Option<Vec<u8>>,
    /// Path to an ISO9660 and/or UDF image
    pub positional: Option<Vec<u8>>,
}

impl FileArg {
    /// The image: the positional path where there is one, else the
    /// option's.
    pub fn file(&self) -> (r: Option<&Vec<u8>>)
        ensures
            r == match self.positional {
                Some(p) => Some(&p),
                None => match self.option {
                    Some(o) => Some(&o),
                    None => None,
                },
            },
    {
        match &self.positional {
            Some(p) => Some(p),
            None => match &self.option {
                Some(o) => Some(o),
                None => None,
            },
        }
    }
}

impl Cli {
    /// The file to write: the output file where one is given, else the
    /// path of the extracted file.
    pub fn output_path(&self) -> (r: &Vec<u8>)
        ensures
            r == match self.output_file {
                Some(o) => &o,
                None => &self.extract,
            },
    {
        match &self.output_file {
            Some(o) => o,
            None => &self.extract,
        }
    }
}

} // verus!
