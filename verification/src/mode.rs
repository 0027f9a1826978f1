//! POSIX file modes of filesystem entries, and their `ls`-style text.

use vstd::prelude::*;

verus! {

/// The file-type bits of a POSIX mode.
pub const S_IFMT: u32 = 0o170000;

/// The `ls` letter of the file type in `mode`.
pub open spec fn file_type_letter(mode: u32) -> char {
    let t = mode & S_IFMT;
    if t == 0o040000 {
        'd'
    } else if t == 0o020000 {
        'c'
    } else if t == 0o060000 {
        'b'
    } else if t == 0o100000 {
        '-'
    } else if t == 0o010000 {
        'p'
    } else if t == 0o120000 {
        'l'
    } else if t == 0o140000 {
        's'
    } else {
        '?'
    }
}

/// `c` where `set`, else `-`.
pub open spec fn flag_char(set: bool, c: char) -> char {
    if set {
        c
    } else {
        '-'
    }
}

/// The execute character of a triplet: `x` for execute alone; with the
/// special bit (set-ID or sticky) `on` where execute is set as well, else
/// `off`; `-` for neither.
pub open spec fn execute_char(special: bool, execute: bool, on: char, off: char) -> char {
    if special {
        if execute {
            on
        } else {
            off
        }
    } else {
        flag_char(execute, 'x')
    }
}

/// The `ls`-style text of a POSIX file mode: the type letter, then the
/// read, write and execute characters of owner, group and others. The
/// set-user-ID and set-group-ID bits show as `s`/`S` in the owner's and
/// group's execute place, the sticky bit as `t`/`T` in the others'.
pub open spec fn file_mode_text(mode: u32) -> Seq<char> {
    seq![
        file_type_letter(mode),
        flag_char(mode & 0o400 != 0, 'r'),
        flag_char(mode & 0o200 != 0, 'w'),
        execute_char(mode & 0o4000 != 0, mode & 0o100 != 0, 's', 'S'),
        flag_char(mode & 0o040 != 0, 'r'),
        flag_char(mode & 0o020 != 0, 'w'),
        execute_char(mode & 0o2000 != 0, mode & 0o010 != 0, 's', 'S'),
        flag_char(mode & 0o004 != 0, 'r'),
        flag_char(mode & 0o002 != 0, 'w'),
        execute_char(mode & 0o1000 != 0, mode & 0o001 != 0, 't', 'T'),
    ]
}

/// `file_mode::Mode::new(mode, u32::MAX).to_string()`: with every bit
/// applied, the crate writes the type letter and the three triplets of
/// [`file_mode_text`].
#[verifier::external_body]
fn mode_text(mode: u32) -> (r: String)
    ensures
        r@ == file_mode_text(mode),
{
    file_mode::Mode::new(mode, u32::MAX).to_string()
}

/// A POSIX file mode: file type, special bits and permissions.
#[derive(Clone, Copy, Debug, PartialEq, Eq)]
pub struct FileMode {
    mode: u32,
}

impl FileMode {
    /// The raw mode bits.
    pub closed spec fn spec_bits(self) -> u32 {
        self.mode
    }

    /// The mode with raw bits `mode`, all of them applied.
    pub fn new(mode: u32) -> (r: FileMode)
        ensures
            r.spec_bits() == mode,
    {
        FileMode { mode }
    }

    /// The raw mode bits.
    pub fn bits(&self) -> (r: u32)
        ensures
            r == self.spec_bits(),
    {
        self.mode
    }

    /// The `ls`-style text of the mode, such as `dr-xr-xr-x`.
    pub fn to_string(&self) -> (r: String)
        ensures
            r@ == file_mode_text(self.spec_bits()),
            r@.len() == 10,
            r@[0] == file_type_letter(self.spec_bits()),
    {
        mode_text(self.mode)
    }
}

} // verus!
