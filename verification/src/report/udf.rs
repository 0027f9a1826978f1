//! The UDF listing of the image inspector.

use vstd::prelude::*;

use crate::mode::{file_mode_text, FileMode};
use crate::report::text::{decimal_chars, decimal_text, pad_left, padded_decimal_text};

verus! {

/// The columns of a UDF listing line before the time: mode, user, group,
/// links (right-aligned in three) and length (right-aligned in nine).
pub open spec fn udf_columns(mode: FileMode, uid: u32, gid: u32, link_count: u16, file_length: u64) -> Seq<char> {
    " "@ + " "@ + file_mode_text(mode.spec_bits()) + " "@ + decimal_chars(uid as nat) + " "@
        + decimal_chars(gid as nat) + " "@ + pad_left(decimal_chars(link_count as nat), 3, ' ') + " "@
        + pad_left(decimal_chars(file_length as nat), 9, ' ')
}

/// The columns of a UDF listing line before the time.
pub fn udf_columns_text(mode: FileMode, uid: u32, gid: u32, link_count: u16, file_length: u64) -> (r: String)
    ensures
        r@ == udf_columns(mode, uid, gid, link_count, file_length),
{
    let mut s = String::from_str(" ");
    s.append(" ");
    s.append(mode.to_string().as_str());
    s.append(" ");
    s.append(decimal_text(uid as u64).as_str());
    s.append(" ");
    s.append(decimal_text(gid as u64).as_str());
    s.append(" ");
    s.append(padded_decimal_text(link_count as u64, 3).as_str());
    s.append(" ");
    s.append(padded_decimal_text(file_length, 9).as_str());
    s
}

/// The columns of a UDF listing line show, in order: two spaces, the
/// ten characters of the mode, a space, the user id, a space, the group id
/// and a space, each id in decimal.
pub proof fn lemma_udf_columns_order(mode: FileMode, uid: u32, gid: u32, link_count: u16, file_length: u64)
    ensures
        ({
            let t = udf_columns(mode, uid, gid, link_count, file_length);
            let u = decimal_chars(uid as nat);
            let g = decimal_chars(gid as nat);
            let ul = u.len() as int;
            let gl = g.len() as int;
            &&& t.subrange(0, 2) == "  "@
            &&& t.subrange(2, 12) == file_mode_text(mode.spec_bits())
            &&& t[12] == ' '
            &&& t.subrange(13, 13 + ul) == u
            &&& t[13 + ul] == ' '
            &&& t.subrange(14 + ul, 14 + ul + gl) == g
            &&& t[14 + ul + gl] == ' '
        }),
{
    let t = udf_columns(mode, uid, gid, link_count, file_length);
    let m = file_mode_text(mode.spec_bits());
    let u = decimal_chars(uid as nat);
    let g = decimal_chars(gid as nat);
    let rest = pad_left(decimal_chars(link_count as nat), 3, ' ') + " "@ + pad_left(
        decimal_chars(file_length as nat),
        9,
        ' ',
    );
    reveal_strlit(" ");
    assert(t =~= seq![' ', ' '] + m + seq![' '] + u + seq![' '] + g + seq![' '] + rest);
    assert(m.len() == 10);
    assert(t.subrange(0, 2) =~= seq![' ', ' ']);
    reveal_strlit("  ");
    assert("  "@ =~= seq![' ', ' ']);
    assert(t.subrange(2, 12) =~= m);
    let ul = u.len() as int;
    let gl = g.len() as int;
    assert(t.subrange(13, 13 + ul) =~= u);
    assert(t.subrange(14 + ul, 14 + ul + gl) =~= g);
}

} // verus!
