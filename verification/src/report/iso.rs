//! The ISO 9660 report of the image inspector: XA modes, listing columns,
//! Rock Ridge and Joliet status lines.

use vstd::prelude::*;
use vstd::utf8::encode_utf8;

use crate::iso9660::rock::{RockRidgeAttributes, RockRidgeSearchError};
use crate::iso9660::xa::{spec_mode2form2_size, CdRomXa, XaFileAttributes};
use crate::iso9660::JolietLevel;
use crate::mode::file_mode_text;
use crate::report::text::{
    decimal_chars, decimal_text, pad_left, padded_decimal_text, padded_signed_decimal_text,
    signed_decimal_chars, two_digit_text,
};

verus! {

/// `letter` where `bits` has all of `flag`, else `-`.
pub open spec fn flag_char(bits: u16, flag: u16, letter: char) -> char {
    if bits & flag == flag {
        letter
    } else {
        '-'
    }
}

/// The `ls`-like text of XA attributes: directory, CD-DA, interleaved,
/// Form 2, Mode 2, then execute and read for owner, group and world.
pub open spec fn xa_mode_chars(bits: u16) -> Seq<char> {
    seq![
        flag_char(bits, 1u16 << 15, 'd'),
        flag_char(bits, 1u16 << 14, 'a'),
        flag_char(bits, 1u16 << 13, 'i'),
        flag_char(bits, 1u16 << 12, '2'),
        flag_char(bits, 1u16 << 11, '1'),
        flag_char(bits, 1u16 << 2, 'x'),
        flag_char(bits, 1u16 << 0, 'r'),
        flag_char(bits, 1u16 << 6, 'x'),
        flag_char(bits, 1u16 << 4, 'r'),
        flag_char(bits, 1u16 << 10, 'x'),
        flag_char(bits, 1u16 << 8, 'r'),
    ]
}

/// Appends `letter` where `attr` has `flag`, else `-`.
fn push_flag(s: &mut String, attr: XaFileAttributes, flag: XaFileAttributes, letter: &str, c: char)
    requires
        letter@ == seq![c],
    ensures
        final(s)@ == old(s)@.push(flag_char(attr.spec_bits(), flag.spec_bits(), c)),
{
    proof {
        reveal_strlit("-");
        assert("-"@ =~= seq!['-']);
    }
    if attr.contains(flag) {
        s.append(letter);
    } else {
        s.append("-");
    }
}

/// Returns an ls-like string representation of the XA file mode attributes.
/// Example: "d---1xrxr-r"
pub fn xa_file_mode_str(attr: XaFileAttributes) -> (r: String)
    ensures
        r@ == xa_mode_chars(attr.spec_bits()),
{
    proof {
        reveal_strlit("d");
        reveal_strlit("a");
        reveal_strlit("i");
        reveal_strlit("2");
        reveal_strlit("1");
        reveal_strlit("x");
        reveal_strlit("r");
        assert("d"@ =~= seq!['d']);
        assert("a"@ =~= seq!['a']);
        assert("i"@ =~= seq!['i']);
        assert("2"@ =~= seq!['2']);
        assert("1"@ =~= seq!['1']);
        assert("x"@ =~= seq!['x']);
        assert("r"@ =~= seq!['r']);
    }
    let mut s = String::new();
    push_flag(&mut s, attr, XaFileAttributes::directory(), "d", 'd');
    push_flag(&mut s, attr, XaFileAttributes::cdda(), "a", 'a');
    push_flag(&mut s, attr, XaFileAttributes::interleaved(), "i", 'i');
    push_flag(&mut s, attr, XaFileAttributes::mode2_form2(), "2", '2');
    push_flag(&mut s, attr, XaFileAttributes::mode2(), "1", '1');
    push_flag(&mut s, attr, XaFileAttributes::owner_execute(), "x", 'x');
    push_flag(&mut s, attr, XaFileAttributes::owner_read(), "r", 'r');
    push_flag(&mut s, attr, XaFileAttributes::group_execute(), "x", 'x');
    push_flag(&mut s, attr, XaFileAttributes::group_read(), "r", 'r');
    push_flag(&mut s, attr, XaFileAttributes::world_execute(), "x", 'x');
    push_flag(&mut s, attr, XaFileAttributes::world_read(), "r", 'r');
    assert(s@ =~= xa_mode_chars(attr.spec_bits()));
    s
}

/// `c` stands in place `i` of `t` for exactly the attributes with bit
/// `mask` set, and `-` for the others.
pub open spec fn shows_flag(t: Seq<char>, i: int, bits: u16, mask: u16, c: char) -> bool {
    &&& (bits & mask != 0 ==> t[i] == c)
    &&& (bits & mask == 0 ==> t[i] == '-')
}

/// Each place of the XA mode text stands for its own attribute, as the
/// flags number them: directory (`0x8000`), CD-DA (`0x4000`), interleaved
/// (`0x2000`), Form 2 (`0x1000`), Mode 2 (`0x0800`), then execute and read
/// of the owner (`0x0004`, `0x0001`), the group (`0x0040`, `0x0010`) and
/// the world (`0x0400`, `0x0100`). Each shows its letter where the
/// attribute is set and `-` where it is not.
pub proof fn lemma_xa_mode_places(bits: u16)
    ensures
        ({
            let t = xa_mode_chars(bits);
            &&& t.len() == 11
            &&& shows_flag(t, 0, bits, 0x8000, 'd')
            &&& shows_flag(t, 1, bits, 0x4000, 'a')
            &&& shows_flag(t, 2, bits, 0x2000, 'i')
            &&& shows_flag(t, 3, bits, 0x1000, '2')
            &&& shows_flag(t, 4, bits, 0x0800, '1')
            &&& shows_flag(t, 5, bits, 0x0004, 'x')
            &&& shows_flag(t, 6, bits, 0x0001, 'r')
            &&& shows_flag(t, 7, bits, 0x0040, 'x')
            &&& shows_flag(t, 8, bits, 0x0010, 'r')
            &&& shows_flag(t, 9, bits, 0x0400, 'x')
            &&& shows_flag(t, 10, bits, 0x0100, 'r')
        }),
{
    assert(
        (bits & (1u16 << 15) == (1u16 << 15) <==> bits & 0x8000 != 0)
        && (bits & (1u16 << 14) == (1u16 << 14) <==> bits & 0x4000 != 0)
        && (bits & (1u16 << 13) == (1u16 << 13) <==> bits & 0x2000 != 0)
        && (bits & (1u16 << 12) == (1u16 << 12) <==> bits & 0x1000 != 0)
        && (bits & (1u16 << 11) == (1u16 << 11) <==> bits & 0x0800 != 0)
        && (bits & (1u16 << 10) == (1u16 << 10) <==> bits & 0x0400 != 0)
        && (bits & (1u16 << 8) == (1u16 << 8) <==> bits & 0x0100 != 0)
        && (bits & (1u16 << 6) == (1u16 << 6) <==> bits & 0x0040 != 0)
        && (bits & (1u16 << 4) == (1u16 << 4) <==> bits & 0x0010 != 0)
        && (bits & (1u16 << 2) == (1u16 << 2) <==> bits & 0x0004 != 0)
        && (bits & (1u16 << 0) == (1u16 << 0) <==> bits & 0x0001 != 0)
    ) by (bit_vector);
}

/// The size that a listing shows for an entry with Rock Ridge attributes:
/// the length in bytes of a symbolic link's target (as `str::len` gives
/// it), else the entry's size.
pub open spec fn rock_listed_size(rock: RockRidgeAttributes, total_size: u64) -> int {
    match rock.symlink_to {
        Some(t) => (encode_utf8(t@).len() as usize) as int,
        None => total_size as int,
    }
}

/// The ` [LSN n]` column of a listing line, `n` right-aligned in six.
pub open spec fn lsn_column(lsn: i32) -> Seq<char> {
    " [LSN "@ + pad_left(signed_decimal_chars(lsn as int), 6, ' ') + "]"@
}

/// A size column of a listing line: a space, then the size right-aligned
/// in nine.
pub open spec fn size_column(size: nat) -> Seq<char> {
    " "@ + pad_left(decimal_chars(size), 9, ' ')
}

/// The listing columns from Rock Ridge attributes: mode, links, user,
/// group, sector and size.
pub open spec fn rock_columns(r: RockRidgeAttributes, lsn: i32, total_size: u64) -> Seq<char> {
    " "@ + file_mode_text(r.mode.spec_bits()) + " "@ + pad_left(decimal_chars(r.hard_links as nat), 3, ' ')
        + " "@ + decimal_chars(r.user_id as nat) + " "@ + decimal_chars(r.group_id as nat)
        + lsn_column(lsn) + size_column(rock_listed_size(r, total_size) as nat)
}

/// The listing columns from XA attributes: XA mode, user, group, file
/// number, sector, and the Form 2 size before the plain one where there is
/// one.
pub open spec fn xa_columns(x: CdRomXa, lsn: i32, total_size: u64) -> Seq<char> {
    " "@ + xa_mode_chars(x.file_attr.spec_bits()) + " "@ + decimal_chars(x.user_id as nat) + " "@
        + decimal_chars(x.group_id as nat) + " [fn "@ + pad_left(decimal_chars(x.file_num as nat), 2, '0')
        + "]"@ + lsn_column(lsn) + if x.file_attr.spec_bits() & (1u16 << 12) == 1u16 << 12 {
        size_column(spec_mode2form2_size(x.total_size) as nat) + " ("@ + pad_left(
            decimal_chars(total_size as nat),
            9,
            ' ',
        ) + ")"@
    } else {
        size_column(total_size as nat)
    }
}

/// The plain listing columns: directory mark, sector and size.
pub open spec fn plain_columns(is_dir: bool, lsn: i32, total_size: u64) -> Seq<char> {
    " "@ + (if is_dir {
        "d"@
    } else {
        "-"@
    }) + lsn_column(lsn) + size_column(total_size as nat)
}

/// The Rock Ridge columns show, in order: a space, the ten characters of
/// the mode, a space, the link count right-aligned in three, a space, the
/// user id, a space, the group id, then the sector column.
pub proof fn lemma_rock_columns_order(r: RockRidgeAttributes, lsn: i32, total_size: u64)
    ensures
        ({
            let t = rock_columns(r, lsn, total_size);
            let k = pad_left(decimal_chars(r.hard_links as nat), 3, ' ');
            let u = decimal_chars(r.user_id as nat);
            let g = decimal_chars(r.group_id as nat);
            let kl = k.len() as int;
            let ul = u.len() as int;
            let gl = g.len() as int;
            &&& t[0] == ' '
            &&& t.subrange(1, 11) == file_mode_text(r.mode.spec_bits())
            &&& t[11] == ' '
            &&& t.subrange(12, 12 + kl) == k
            &&& t[12 + kl] == ' '
            &&& t.subrange(13 + kl, 13 + kl + ul) == u
            &&& t[13 + kl + ul] == ' '
            &&& t.subrange(14 + kl + ul, 14 + kl + ul + gl) == g
            &&& t.subrange(14 + kl + ul + gl, 14 + kl + ul + gl + lsn_column(lsn).len()) == lsn_column(
                lsn,
            )
        }),
{
    let t = rock_columns(r, lsn, total_size);
    let m = file_mode_text(r.mode.spec_bits());
    let k = pad_left(decimal_chars(r.hard_links as nat), 3, ' ');
    let u = decimal_chars(r.user_id as nat);
    let g = decimal_chars(r.group_id as nat);
    let l = lsn_column(lsn);
    let z = size_column(rock_listed_size(r, total_size) as nat);
    reveal_strlit(" ");
    assert(t =~= seq![' '] + m + seq![' '] + k + seq![' '] + u + seq![' '] + g + l + z);
    let kl = k.len() as int;
    let ul = u.len() as int;
    let gl = g.len() as int;
    assert(t.subrange(1, 11) =~= m);
    assert(t.subrange(12, 12 + kl) =~= k);
    assert(t.subrange(13 + kl, 13 + kl + ul) =~= u);
    assert(t.subrange(14 + kl + ul, 14 + kl + ul + gl) =~= g);
    assert(t.subrange(14 + kl + ul + gl, 14 + kl + ul + gl + l.len()) =~= l);
}

/// The XA columns show, in order: a space, the eleven characters of the XA
/// mode, a space, the user id, a space, the group id, ` [fn `, the file
/// number in two digits, `]`, then the sector column.
pub proof fn lemma_xa_columns_order(x: CdRomXa, lsn: i32, total_size: u64)
    ensures
        ({
            let t = xa_columns(x, lsn, total_size);
            let u = decimal_chars(x.user_id as nat);
            let g = decimal_chars(x.group_id as nat);
            let f = pad_left(decimal_chars(x.file_num as nat), 2, '0');
            let ul = u.len() as int;
            let gl = g.len() as int;
            let fl = f.len() as int;
            &&& t[0] == ' '
            &&& t.subrange(1, 12) == xa_mode_chars(x.file_attr.spec_bits())
            &&& t[12] == ' '
            &&& t.subrange(13, 13 + ul) == u
            &&& t[13 + ul] == ' '
            &&& t.subrange(14 + ul, 14 + ul + gl) == g
            &&& t.subrange(14 + ul + gl, 19 + ul + gl) == " [fn "@
            &&& t.subrange(19 + ul + gl, 19 + ul + gl + fl) == f
            &&& t[19 + ul + gl + fl] == ']'
            &&& t.subrange(20 + ul + gl + fl, 20 + ul + gl + fl + lsn_column(lsn).len())
                == lsn_column(lsn)
        }),
{
    let t = xa_columns(x, lsn, total_size);
    let a = xa_mode_chars(x.file_attr.spec_bits());
    let u = decimal_chars(x.user_id as nat);
    let g = decimal_chars(x.group_id as nat);
    let f = pad_left(decimal_chars(x.file_num as nat), 2, '0');
    let l = lsn_column(lsn);
    let z = if x.file_attr.spec_bits() & (1u16 << 12) == 1u16 << 12 {
        size_column(spec_mode2form2_size(x.total_size) as nat) + " ("@ + pad_left(
            decimal_chars(total_size as nat),
            9,
            ' ',
        ) + ")"@
    } else {
        size_column(total_size as nat)
    };
    reveal_strlit(" ");
    reveal_strlit("]");
    assert(t =~= seq![' '] + a + seq![' '] + u + seq![' '] + g + " [fn "@ + f + seq![']'] + l + z);
    let ul = u.len() as int;
    let gl = g.len() as int;
    let fl = f.len() as int;
    reveal_strlit(" [fn ");
    assert(t.subrange(1, 12) =~= a);
    assert(t.subrange(13, 13 + ul) =~= u);
    assert(t.subrange(14 + ul, 14 + ul + gl) =~= g);
    assert(t.subrange(14 + ul + gl, 19 + ul + gl) =~= " [fn "@);
    assert(t.subrange(19 + ul + gl, 19 + ul + gl + fl) =~= f);
    assert(t.subrange(20 + ul + gl + fl, 20 + ul + gl + fl + l.len()) =~= l);
}

/// The columns of an ISO 9660 listing line before the time: from the Rock
/// Ridge attributes where there are any; else, where XA attributes are
/// shown and present, from them; else the plain columns.
pub open spec fn listing_columns(
    rock: Option<RockRidgeAttributes>,
    xa: Option<CdRomXa>,
    use_xa: bool,
    is_dir: bool,
    lsn: i32,
    total_size: u64,
) -> Seq<char> {
    " "@ + match rock {
        Some(r) => rock_columns(r, lsn, total_size),
        None => match (use_xa, xa) {
            (true, Some(x)) => xa_columns(x, lsn, total_size),
            _ => plain_columns(is_dir, lsn, total_size),
        },
    }
}

/// The ` [LSN n]` column.
fn lsn_column_text(lsn: i32) -> (r: String)
    ensures
        r@ == lsn_column(lsn),
{
    let mut s = String::from_str(" [LSN ");
    let n = padded_signed_decimal_text(lsn as i64, 6);
    s.append(n.as_str());
    s.append("]");
    s
}

/// A size column.
fn size_column_text(size: u64) -> (r: String)
    ensures
        r@ == size_column(size as nat),
{
    let mut s = String::from_str(" ");
    let n = padded_decimal_text(size, 9);
    s.append(n.as_str());
    s
}

/// The listing columns from Rock Ridge attributes.
fn rock_columns_text(r: &RockRidgeAttributes, lsn: i32, total_size: u64) -> (t: String)
    ensures
        t@ == rock_columns(*r, lsn, total_size),
{
    let size: u64 = match &r.symlink_to {
        Some(t) => t.as_str().len() as u64,
        None => total_size,
    };
    let mut s = String::from_str(" ");
    s.append(r.mode.to_string().as_str());
    s.append(" ");
    s.append(padded_decimal_text(r.hard_links as u64, 3).as_str());
    s.append(" ");
    s.append(decimal_text(r.user_id as u64).as_str());
    s.append(" ");
    s.append(decimal_text(r.group_id as u64).as_str());
    s.append(lsn_column_text(lsn).as_str());
    s.append(size_column_text(size).as_str());
    s
}

/// The listing columns from XA attributes.
fn xa_columns_text(x: &CdRomXa, lsn: i32, total_size: u64) -> (t: String)
    requires
        spec_mode2form2_size(x.total_size) <= u64::MAX,
    ensures
        t@ == xa_columns(*x, lsn, total_size),
{
    let mut s = String::from_str(" ");
    s.append(xa_file_mode_str(x.file_attr).as_str());
    s.append(" ");
    s.append(decimal_text(x.user_id as u64).as_str());
    s.append(" ");
    s.append(decimal_text(x.group_id as u64).as_str());
    s.append(" [fn ");
    s.append(two_digit_text(x.file_num as u64).as_str());
    s.append("]");
    s.append(lsn_column_text(lsn).as_str());
    let ghost head = s@;
    match x.mode2form2_size() {
        Some(m2f2) => {
            let mut tail = size_column_text(m2f2);
            tail.append(" (");
            tail.append(padded_decimal_text(total_size, 9).as_str());
            tail.append(")");
            s.append(tail.as_str());
        },
        None => {
            s.append(size_column_text(total_size).as_str());
        },
    }
    s
}

/// The plain listing columns.
fn plain_columns_text(is_dir: bool, lsn: i32, total_size: u64) -> (t: String)
    ensures
        t@ == plain_columns(is_dir, lsn, total_size),
{
    let mut s = String::from_str(" ");
    s.append(
        if is_dir {
            "d"
        } else {
            "-"
        },
    );
    s.append(lsn_column_text(lsn).as_str());
    s.append(size_column_text(total_size).as_str());
    s
}

/// The columns of an ISO 9660 listing line before the time.
pub fn listing_columns_text(
    rock: Option<&RockRidgeAttributes>,
    xa: Option<&CdRomXa>,
    use_xa: bool,
    is_dir: bool,
    lsn: i32,
    total_size: u64,
) -> (r: String)
    requires
        xa matches Some(x) ==> spec_mode2form2_size(x.total_size) <= u64::MAX,
    ensures
        r@ == listing_columns(
            match rock {
                Some(a) => Some(*a),
                None => None,
            },
            match xa {
                Some(x) => Some(*x),
                None => None,
            },
            use_xa,
            is_dir,
            lsn,
            total_size,
        ),
{
    let mut s = String::from_str(" ");
    let cols = match rock {
        Some(r) => rock_columns_text(r, lsn, total_size),
        None => match (use_xa, xa) {
            (true, Some(x)) => xa_columns_text(x, lsn, total_size),
            _ => plain_columns_text(is_dir, lsn, total_size),
        },
    };
    s.append(cols.as_str());
    s
}

/// The end of an ISO 9660 listing line after the time: the entry's name,
/// and where Rock Ridge gives a symbolic link's target, an arrow to it.
pub open spec fn listing_tail(name: Seq<char>, rock: Option<RockRidgeAttributes>) -> Seq<char> {
    " "@ + name + match rock {
        Some(r) => match r.symlink_to {
            Some(t) => " -> "@ + t@,
            None => Seq::empty(),
        },
        None => Seq::empty(),
    }
}

/// The end of an ISO 9660 listing line after the time.
pub fn listing_tail_text(name: &str, rock: Option<&RockRidgeAttributes>) -> (r: String)
    ensures
        r@ == listing_tail(
            name@,
            match rock {
                Some(a) => Some(*a),
                None => None,
            },
        ),
{
    let mut s = String::from_str(" ");
    s.append(name);
    if let Some(r) = rock {
        if let Some(t) = &r.symlink_to {
            s.append(" -> ");
            s.append(t.as_str());
        }
    }
    assert(s@ =~= listing_tail(
        name@,
        match rock {
            Some(a) => Some(*a),
            None => None,
        },
    ));
    s
}

/// The time a listing shows for an entry: the Rock Ridge modification time
/// where there is one, else the time that the entry's record holds.
pub fn listing_time(rock: Option<&RockRidgeAttributes>, timestamp: Option<time::OffsetDateTime>) -> (r: Option<time::OffsetDateTime>)
    ensures
        r == match rock {
            Some(a) => match a.modify_time {
                Some(t) => Some(t),
                None => timestamp,
            },
            None => timestamp,
        },
{
    match rock {
        Some(a) => match a.modify_time {
            Some(t) => Some(t),
            None => timestamp,
        },
        None => timestamp,
    }
}

/// The Rock Ridge status line of the search's outcome: yes, no, or
/// "possibly not" where it could not tell.
pub open spec fn rock_ridge_line(found: Result<bool, RockRidgeSearchError>) -> Seq<char> {
    "Rock Ridge  : "@ + match found {
        Ok(true) => "yes"@,
        Ok(false) => "no"@,
        Err(_) => "possibly not"@,
    }
}

/// The Rock Ridge status line of the search's outcome.
pub fn rock_ridge_status_text(found: Result<bool, RockRidgeSearchError>) -> (r: String)
    ensures
        r@ == rock_ridge_line(found),
{
    let mut s = String::from_str("Rock Ridge  : ");
    s.append(
        match found {
            Ok(true) => "yes",
            Ok(false) => "no",
            Err(_) => "possibly not",
        },
    );
    s
}

/// The Joliet line: the level's number, or that there are no Joliet
/// extensions.
pub open spec fn joliet_line(level: Option<JolietLevel>) -> Seq<char> {
    match level {
        Some(l) => "Joliet Level: "@ + decimal_chars(l.spec_code() as nat),
        None => "No Joliet extensions"@,
    }
}

/// The Joliet line.
pub fn joliet_level_text(level: Option<JolietLevel>) -> (r: String)
    ensures
        r@ == joliet_line(level),
{
    match level {
        Some(l) => {
            let mut s = String::from_str("Joliet Level: ");
            s.append(decimal_text(l.code() as u64).as_str());
            s
        },
        None => String::from_str("No Joliet extensions"),
    }
}

/// An identifier line of the image's metadata: the key, a colon, the
/// value; none where the image has no such identifier.
pub open spec fn identifier_line(key: Seq<char>, value: Option<Seq<char>>) -> Option<Seq<char>> {
    match value {
        Some(v) => Some(key + " : "@ + v),
        None => None,
    }
}

/// An identifier line of the image's metadata.
pub fn identifier_text(key: &str, value: Option<&str>) -> (r: Option<String>)
    ensures
        match r {
            Some(s) => identifier_line(key@, match value {
                Some(v) => Some(v@),
                None => None,
            }) == Some(s@),
            None => value is None,
        },
{
    match value {
        Some(v) => {
            let mut s = String::from_str(key);
            s.append(" : ");
            s.append(v);
            Some(s)
        },
        None => None,
    }
}

} // verus!
