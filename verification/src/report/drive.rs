//! The report of a drive's hardware identifiers and capabilities.

use vstd::prelude::*;

use crate::drive::{
    contained_flags, misc_capabilities_known, read_capabilities_known, write_capabilities_known,
    DriveCapabilities, HardwareIdentifiers, MiscCapabilities, ReadCapabilities, WriteCapabilities,
};
use crate::report::features::lines_view;
use crate::report::text::{marked_line, marked_line_text, supported_mark, to_char1, L1, L2};

verus! {

/// The lines of the drive's identifiers: vendor, model and revision.
pub open spec fn device_info_lines(ids: HardwareIdentifiers) -> Seq<Seq<char>> {
    seq![
        L1@ + " Vendor   : "@ + ids.vendor@,
        L1@ + " Model    : "@ + ids.model@,
        L1@ + " Revision : "@ + ids.revision@,
    ]
}

/// The lines of the drive's identifiers: vendor, model and revision.
pub fn device_info_report(ids: &HardwareIdentifiers) -> (r: Vec<String>)
    ensures
        lines_view(r@) == device_info_lines(*ids),
{
    let mut vendor = String::from_str(L1);
    vendor.append(" Vendor   : ");
    vendor.append(ids.vendor.as_str());
    let mut model = String::from_str(L1);
    model.append(" Model    : ");
    model.append(ids.model.as_str());
    let mut revision = String::from_str(L1);
    revision.append(" Revision : ");
    revision.append(ids.revision.as_str());
    let r = vec![vendor, model, revision];
    assert(lines_view(r@) =~= device_info_lines(*ids));
    r
}

/// The line of one capability that the drive has.
pub open spec fn capability_line(name: &str) -> Seq<char> {
    marked_line(L2, supported_mark(true), name@)
}

/// The lines of the drive's capabilities: a heading for each group, then
/// a line for each capability in it, in declaration order.
pub open spec fn capabilities_lines(caps: DriveCapabilities) -> Seq<Seq<char>> {
    seq![L1@ + " Hardware:"@] + contained_flags(caps.misc.spec_bits(), misc_capabilities_known()).map_values(
        |b: u32| capability_line(MiscCapabilities::spec_name_of(b)),
    ) + seq![L1@ + " Read:"@] + contained_flags(caps.read.spec_bits(), read_capabilities_known()).map_values(
        |b: u32| capability_line(ReadCapabilities::spec_name_of(b)),
    ) + seq![L1@ + " Write:"@] + contained_flags(caps.write.spec_bits(), write_capabilities_known()).map_values(
        |b: u32| capability_line(WriteCapabilities::spec_name_of(b)),
    )
}

/// The heading line `text` after the first-level indent.
fn heading(text: &str) -> (r: String)
    ensures
        r@ == L1@ + text@,
{
    let mut s = String::from_str(L1);
    s.append(text);
    s
}

/// The lines of the drive's capabilities.
pub fn capabilities_report(caps: &DriveCapabilities) -> (r: Vec<String>)
    ensures
        lines_view(r@) == capabilities_lines(*caps),
{
    let mut lines: Vec<String> = Vec::new();
    lines.push(heading(" Hardware:"));
    let misc = caps.misc.iter_flags();
    let ghost m0 = lines@;
    assert(lines_view(m0) =~= seq![L1@ + " Hardware:"@]);
    let mut i: usize = 0;
    while i < misc.len()
        invariant
            i <= misc@.len(),
            lines_view(lines@) == lines_view(m0) + misc@.take(i as int).map_values(
                |f: MiscCapabilities| capability_line(MiscCapabilities::spec_name_of(f.spec_bits())),
            ),
        decreases misc@.len() - i,
    {
        let line = marked_line_text(L2, to_char1(true), misc[i].name());
        let ghost cur = lines@;
        lines.push(line);
        assert(lines_view(lines@) =~= lines_view(cur).push(line@));
        assert(misc@.take(i + 1) =~= misc@.take(i as int).push(misc@[i as int]));
        assert(lines_view(lines@) =~= lines_view(m0) + misc@.take(i + 1).map_values(
            |f: MiscCapabilities| capability_line(MiscCapabilities::spec_name_of(f.spec_bits())),
        ));
        i = i + 1;
    }
    proof {
        assert(misc@.take(i as int) =~= misc@);
        assert(misc@.map_values(
            |f: MiscCapabilities| capability_line(MiscCapabilities::spec_name_of(f.spec_bits())),
        ) =~= misc@.map_values(|f: MiscCapabilities| f.spec_bits()).map_values(
            |b: u32| capability_line(MiscCapabilities::spec_name_of(b)),
        ));
    }
    let ghost after_misc = lines@;
    lines.push(heading(" Read:"));
    let read = caps.read.iter_flags();
    let ghost m1 = lines@;
    assert(lines_view(m1) =~= lines_view(after_misc) + seq![L1@ + " Read:"@]);
    let mut i: usize = 0;
    while i < read.len()
        invariant
            i <= read@.len(),
            lines_view(lines@) == lines_view(m1) + read@.take(i as int).map_values(
                |f: ReadCapabilities| capability_line(ReadCapabilities::spec_name_of(f.spec_bits())),
            ),
        decreases read@.len() - i,
    {
        let line = marked_line_text(L2, to_char1(true), read[i].name());
        let ghost cur = lines@;
        lines.push(line);
        assert(lines_view(lines@) =~= lines_view(cur).push(line@));
        assert(read@.take(i + 1) =~= read@.take(i as int).push(read@[i as int]));
        assert(lines_view(lines@) =~= lines_view(m1) + read@.take(i + 1).map_values(
            |f: ReadCapabilities| capability_line(ReadCapabilities::spec_name_of(f.spec_bits())),
        ));
        i = i + 1;
    }
    proof {
        assert(read@.take(i as int) =~= read@);
        assert(read@.map_values(
            |f: ReadCapabilities| capability_line(ReadCapabilities::spec_name_of(f.spec_bits())),
        ) =~= read@.map_values(|f: ReadCapabilities| f.spec_bits()).map_values(
            |b: u32| capability_line(ReadCapabilities::spec_name_of(b)),
        ));
    }
    let ghost after_read = lines@;
    lines.push(heading(" Write:"));
    let write = caps.write.iter_flags();
    let ghost m2 = lines@;
    assert(lines_view(m2) =~= lines_view(after_read) + seq![L1@ + " Write:"@]);
    let mut i: usize = 0;
    while i < write.len()
        invariant
            i <= write@.len(),
            lines_view(lines@) == lines_view(m2) + write@.take(i as int).map_values(
                |f: WriteCapabilities| capability_line(WriteCapabilities::spec_name_of(f.spec_bits())),
            ),
        decreases write@.len() - i,
    {
        let line = marked_line_text(L2, to_char1(true), write[i].name());
        let ghost cur = lines@;
        lines.push(line);
        assert(lines_view(lines@) =~= lines_view(cur).push(line@));
        assert(write@.take(i + 1) =~= write@.take(i as int).push(write@[i as int]));
        assert(lines_view(lines@) =~= lines_view(m2) + write@.take(i + 1).map_values(
            |f: WriteCapabilities| capability_line(WriteCapabilities::spec_name_of(f.spec_bits())),
        ));
        i = i + 1;
    }
    proof {
        assert(write@.take(i as int) =~= write@);
        assert(write@.map_values(
            |f: WriteCapabilities| capability_line(WriteCapabilities::spec_name_of(f.spec_bits())),
        ) =~= write@.map_values(|f: WriteCapabilities| f.spec_bits()).map_values(
            |b: u32| capability_line(WriteCapabilities::spec_name_of(b)),
        ));
        assert(lines_view(lines@) =~= capabilities_lines(*caps));
    }
    lines
}

} // verus!
