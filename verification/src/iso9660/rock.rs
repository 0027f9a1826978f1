//! ISO 9660 Rock Ridge extensions: the search for them and the attributes
//! they give an entry.

use vstd::prelude::*;

use crate::mode::FileMode;
use crate::text::{c_string_text, c_text, opt_bytes};

verus! {

/// The filesystem's three-way answer "no".
pub const THREE_WAY_NO: u32 = 0;

/// The filesystem's three-way answer "yes"; the third answer is "don't
/// know".
pub const THREE_WAY_YES: u32 = 1;

/// error searching for rock ridge extensions: file limit reached
#[non_exhaustive]
#[derive(Clone, Copy, Debug, PartialEq, Eq)]
pub struct RockRidgeSearchError;

/// The number of files that the search for Rock Ridge extensions may scan:
/// the given limit, or no limit at all.
pub fn search_file_limit(file_limit: Option<u64>) -> (r: u64)
    ensures
        r == match file_limit {
            Some(l) => l,
            None => u64::MAX,
        },
{
    match file_limit {
        Some(l) => l,
        None => u64::MAX,
    }
}

/// Whether an image has Rock Ridge extensions, from the search's three-way
/// `answer`: yes, no, or an error where it could not tell before the file
/// limit.
pub fn have_rock_ridge_from(answer: u32) -> (r: Result<bool, RockRidgeSearchError>)
    ensures
        answer == THREE_WAY_YES ==> r == Ok::<bool, RockRidgeSearchError>(true),
        answer == THREE_WAY_NO ==> r == Ok::<bool, RockRidgeSearchError>(false),
        answer != THREE_WAY_YES && answer != THREE_WAY_NO ==> r is Err,
{
    if answer == THREE_WAY_YES {
        Ok(true)
    } else if answer == THREE_WAY_NO {
        Ok(false)
    } else {
        Err(RockRidgeSearchError)
    }
}

/// The target of a symbolic link as Rock Ridge records it: none where
/// there is no target, where it is not well-formed UTF-8, or where it is
/// empty.
pub open spec fn symlink_target_of(raw: Option<Seq<u8>>) -> Option<Seq<char>> {
    match c_text(raw) {
        Some(t) => if t.len() > 0 {
            Some(t)
        } else {
            None
        },
        None => None,
    }
}

/// The target of a symbolic link from the recorded C string (`None` for a
/// null pointer).
pub fn symlink_target(raw: Option<&[u8]>) -> (r: Option<String>)
    ensures
        r matches Some(s) ==> symlink_target_of(opt_bytes(raw)) == Some(s@),
        r is None ==> symlink_target_of(opt_bytes(raw)) is None,
{
    match c_string_text(raw) {
        Some(s) => if s.as_str().is_empty() {
            None
        } else {
            Some(s)
        },
        None => None,
    }
}

/// ISO 9660 Rock Ridge extensions.
#[non_exhaustive]
#[derive(Clone, Debug)]
pub struct RockRidgeAttributes {
    pub create_time: Option<time::OffsetDateTime>,
    pub group_id: u32,
    pub hard_links: u32,
    pub mode: FileMode,
    pub modify_time: Option<time::OffsetDateTime>,
    pub symlink_to: Option<String>,
    pub user_id: u32,
}

impl RockRidgeAttributes {
    /// The Rock Ridge attributes of an entry, from what its record holds:
    /// none unless the record says (three-way `present`) that it has them;
    /// then the times, ids, link count and mode as recorded, and the
    /// symbolic link's target.
    pub fn from_record(
        present: u32,
        create_time: Option<time::OffsetDateTime>,
        group_id: u32,
        hard_links: u32,
        mode: u32,
        modify_time: Option<time::OffsetDateTime>,
        symlink: Option<&[u8]>,
        user_id: u32,
    ) -> (r: Option<RockRidgeAttributes>)
        ensures
            r is Some <==> present == THREE_WAY_YES,
            r matches Some(a) ==> {
                &&& a.create_time == create_time
                &&& a.group_id == group_id
                &&& a.hard_links == hard_links
                &&& a.mode.spec_bits() == mode
                &&& a.modify_time == modify_time
                &&& (match a.symlink_to {
                    Some(s) => symlink_target_of(opt_bytes(symlink)) == Some(s@),
                    None => symlink_target_of(opt_bytes(symlink)) is None,
                })
                &&& a.user_id == user_id
            },
    {
        if present != THREE_WAY_YES {
            return None;
        }
        Some(
            RockRidgeAttributes {
                create_time,
                group_id,
                hard_links,
                mode: FileMode::new(mode),
                modify_time,
                symlink_to: symlink_target(symlink),
                user_id,
            },
        )
    }
}

} // verus!
