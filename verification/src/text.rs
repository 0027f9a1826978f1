//! Text decoding of byte fields reported by drives and filesystems.

use vstd::prelude::*;
use vstd::utf8::{decode_utf8, valid_utf8};

verus! {

/// Unicode `White_Space`, the set of characters that `char::is_whitespace`
/// accepts and that `str::trim` removes.
pub open spec fn is_white_space(c: char) -> bool {
    let u = c as u32;
    ||| 0x9 <= u <= 0xd
    ||| u == 0x20
    ||| u == 0x85
    ||| u == 0xa0
    ||| u == 0x1680
    ||| 0x2000 <= u <= 0x200a
    ||| u == 0x2028
    ||| u == 0x2029
    ||| u == 0x202f
    ||| u == 0x205f
    ||| u == 0x3000
}

/// `s` without its leading white space.
pub open spec fn trim_start_chars(s: Seq<char>) -> Seq<char>
    decreases s.len(),
{
    if s.len() > 0 && is_white_space(s[0]) {
        trim_start_chars(s.drop_first())
    } else {
        s
    }
}

/// `s` without its trailing white space.
pub open spec fn trim_end_chars(s: Seq<char>) -> Seq<char>
    decreases s.len(),
{
    if s.len() > 0 && is_white_space(s.last()) {
        trim_end_chars(s.drop_last())
    } else {
        s
    }
}

/// `s` without its leading and trailing white space.
pub open spec fn trim_chars(s: Seq<char>) -> Seq<char> {
    trim_end_chars(trim_start_chars(s))
}

/// The characters that `String::from_utf8_lossy` produces for `bytes`:
/// maximal invalid subsequences are each replaced by U+FFFD.
pub uninterp spec fn utf8_lossy_decoded(bytes: Seq<u8>) -> Seq<char>;

/// `String::from_utf8`: `Some` exactly when `bytes` is well-formed UTF-8,
/// and then the decoded characters.
#[verifier::external_body]
fn utf8_string(bytes: &[u8]) -> (r: Option<String>)
    ensures
        r is Some <==> valid_utf8(bytes@),
        r matches Some(s) ==> s@ == decode_utf8(bytes@),
{
    String::from_utf8(bytes.to_vec()).ok()
}

/// `String::from_utf8_lossy`, owned: the decoded characters, with each
/// malformed sequence replaced by U+FFFD. On well-formed input it is the
/// plain decoding.
#[verifier::external_body]
fn utf8_lossy(bytes: &[u8]) -> (r: String)
    ensures
        r@ == utf8_lossy_decoded(bytes@),
        valid_utf8(bytes@) ==> r@ == decode_utf8(bytes@),
{
    String::from_utf8_lossy(bytes).into_owned()
}

/// `str::trim`, owned: the text without leading and trailing white space.
#[verifier::external_body]
fn trim(s: &str) -> (r: String)
    ensures
        r@ == trim_chars(s@),
{
    s.trim().to_string()
}

/// `str::trim_end`, owned: the text without trailing white space.
#[verifier::external_body]
fn trim_end(s: &str) -> (r: String)
    ensures
        r@ == trim_end_chars(s@),
{
    s.trim_end().to_string()
}

/// Strict UTF-8 decoding of a byte field.
pub fn decode_utf8_text(bytes: &[u8]) -> (r: Option<String>)
    ensures
        r is Some <==> valid_utf8(bytes@),
        r matches Some(s) ==> s@ == decode_utf8(bytes@),
{
    utf8_string(bytes)
}

/// A fixed-width text field as drives report it: decoded leniently, with
/// surrounding white space (the usual space padding) removed.
pub fn padded_field_text(bytes: &[u8]) -> (r: String)
    ensures
        r@ == trim_chars(utf8_lossy_decoded(bytes@)),
{
    let s = utf8_lossy(bytes);
    trim(s.as_str())
}

/// The bytes of a NUL-terminated C text field: everything before the first
/// NUL.
pub open spec fn c_field_bytes(bytes: Seq<u8>) -> Seq<u8>
    decreases bytes.len(),
{
    if bytes.len() == 0 || bytes[0] == 0 {
        Seq::empty()
    } else {
        seq![bytes[0]] + c_field_bytes(bytes.drop_first())
    }
}

/// Length of the text before the first NUL.
fn c_field_len(bytes: &[u8]) -> (n: usize)
    ensures
        n <= bytes@.len(),
        bytes@.subrange(0, n as int) == c_field_bytes(bytes@),
{
    let mut i: usize = 0;
    proof {
        assert(bytes@.skip(0) =~= bytes@);
        assert(bytes@.subrange(0, 0) + c_field_bytes(bytes@) =~= c_field_bytes(bytes@));
    }
    while i < bytes.len() && bytes[i] != 0
        invariant
            i <= bytes@.len(),
            forall|k: int| 0 <= k < i ==> bytes@[k] != 0,
            c_field_bytes(bytes@) == bytes@.subrange(0, i as int) + c_field_bytes(bytes@.skip(i as int)),
        decreases bytes@.len() - i,
    {
        proof {
            let rest = bytes@.skip(i as int);
            assert(rest.drop_first() =~= bytes@.skip(i + 1));
            assert(bytes@.subrange(0, i + 1) =~= bytes@.subrange(0, i as int) + seq![rest[0]]);
            assert(c_field_bytes(rest) == seq![rest[0]] + c_field_bytes(rest.drop_first()));
            assert(bytes@.subrange(0, i as int) + (seq![rest[0]] + c_field_bytes(rest.drop_first()))
                =~= bytes@.subrange(0, i + 1) + c_field_bytes(bytes@.skip(i + 1)));
        }
        i = i + 1;
    }
    proof {
        let rest = bytes@.skip(i as int);
        assert(rest.len() == 0 || rest[0] == 0);
        assert(c_field_bytes(rest) =~= Seq::<u8>::empty());
        assert(bytes@.subrange(0, i as int) + c_field_bytes(rest) =~= bytes@.subrange(0, i as int));
    }
    i
}

/// A NUL-terminated C text field decoded leniently, with trailing white
/// space removed.
pub fn c_field_text(bytes: &[u8]) -> (r: String)
    ensures
        r@ == trim_end_chars(utf8_lossy_decoded(c_field_bytes(bytes@))),
{
    let n = c_field_len(bytes);
    let s = utf8_lossy(&bytes[0..n]);
    trim_end(s.as_str())
}

/// The text of a C string as `CStr::to_str` gives it: `None` where there
/// is no string (a null pointer) or where its bytes are not well-formed
/// UTF-8, else the decoded characters.
pub open spec fn c_text(raw: Option<Seq<u8>>) -> Option<Seq<char>> {
    match raw {
        None => None,
        Some(b) => if valid_utf8(b) {
            Some(decode_utf8(b))
        } else {
            None
        },
    }
}

/// The bytes behind an optional C string.
pub open spec fn opt_bytes(raw: Option<&[u8]>) -> Option<Seq<u8>> {
    match raw {
        Some(b) => Some(b@),
        None => None,
    }
}

/// Strict decoding of a C string's bytes (without the terminating NUL),
/// where `None` stands for a null pointer.
pub fn c_string_text(raw: Option<&[u8]>) -> (r: Option<String>)
    ensures
        r matches Some(s) ==> c_text(opt_bytes(raw)) == Some(s@),
        r is None ==> c_text(opt_bytes(raw)) is None,
{
    match raw {
        None => None,
        Some(b) => utf8_string(b),
    }
}

/// The text of a C string's bytes (without the terminating NUL) decoded
/// leniently, each malformed sequence replaced by U+FFFD.
pub fn c_string_lossy(bytes: &[u8]) -> (r: String)
    ensures
        r@ == utf8_lossy_decoded(bytes@),
{
    utf8_lossy(bytes)
}

} // verus!
