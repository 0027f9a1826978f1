//! The report of a drive's MMC features.

use vstd::prelude::*;

use crate::mmc::get_config::{MmcFeature, MmcProfile};
use crate::report::text::{
    active_mark, decimal_chars, decimal_text, marked_line, marked_line_text, supported_mark,
    to_char, to_char1, L1, L2, L3,
};

verus! {

/// The characters of each line.
pub open spec fn lines_view(lines: Seq<String>) -> Seq<Seq<char>> {
    lines.map_values(|s: String| s@)
}

/// The heading line of a feature: its mark and name, then a colon.
pub open spec fn feature_heading(f: MmcFeature, active: bool) -> Seq<char> {
    marked_line(L2, active_mark(active), f.spec_name()@ + ":"@)
}

/// The line of one profile of the profile list.
pub open spec fn profile_line(p: MmcProfile) -> Seq<char> {
    marked_line(L3, active_mark(p.active), p.kind.spec_name()@)
}

/// A detail line of a feature: a property with its support mark.
pub open spec fn detail_line(supported: bool, text: Seq<char>) -> Seq<char> {
    marked_line(L3, supported_mark(supported), text)
}

/// The lines that report one feature: a heading, marked active where the
/// feature says so (and always for features that do not), then a line for
/// each of its properties. Features without properties of note get a
/// heading marked `(?)`.
pub open spec fn feature_lines(f: MmcFeature) -> Seq<Seq<char>> {
    match f {
        MmcFeature::ProfileList { profiles } => seq![
            marked_line(L2, active_mark(true), f.spec_name()@ + ": "@),
        ] + profiles@.map_values(|p: MmcProfile| profile_line(p)),
        MmcFeature::Core { interface } => seq![
            feature_heading(f, true),
            detail_line(true, "Interface: "@ + interface.spec_name()@),
        ],
        MmcFeature::Morphing { async_events, op_chg_events } => seq![
            feature_heading(f, true),
            detail_line(async_events, "Asynchronous events"@),
            detail_line(op_chg_events, "Operational change events"@),
        ],
        MmcFeature::RemovableMedium { eject, lock, prevent_jumper, load_mech } => seq![
            feature_heading(f, true),
            detail_line(eject, "Eject"@),
            detail_line(lock, "Lock"@),
            detail_line(prevent_jumper, "Prevent Jumper"@),
            detail_line(true, "Loading Mechanism: "@ + load_mech.spec_name()@),
        ],
        MmcFeature::CdRead { active, c2_error, cd_text, dap } => seq![
            feature_heading(f, active),
            detail_line(c2_error, "C2 Errors"@),
            detail_line(cd_text, "CD-Text"@),
            detail_line(dap, "DAP"@),
        ],
        MmcFeature::CdAudioExternalPlay {
            active,
            scan,
            sep_channel_mute,
            sep_volume,
            volume_levels,
        } => seq![
            feature_heading(f, active),
            detail_line(scan, "SCAN"@),
            detail_line(sep_channel_mute, "Separate Channel Mute"@),
            detail_line(sep_volume, "Separate Volume"@),
            detail_line(true, "Volume Levels: "@ + decimal_chars(volume_levels as nat)),
        ],
        MmcFeature::DvdCss { active, .. } => seq![feature_heading(f, active)],
        MmcFeature::DriveSerialNumber { sno } => seq![
            feature_heading(f, true),
            detail_line(true, "S/N: "@ + sno@),
        ],
        _ => seq![L2@ + " (?) "@ + f.spec_name()@ + ":"@],
    }
}

/// The lines that report the features in turn.
pub open spec fn features_lines(fs: Seq<MmcFeature>) -> Seq<Seq<char>>
    decreases fs.len(),
{
    if fs.len() == 0 {
        Seq::empty()
    } else {
        features_lines(fs.drop_last()) + feature_lines(fs.last())
    }
}

/// The heading of the feature report.
pub open spec fn features_heading() -> Seq<char> {
    L1@ + " Supported features:"@
}

/// The feature's name followed by `suffix`.
fn name_with(f: &MmcFeature, suffix: &str) -> (r: String)
    ensures
        r@ == f.spec_name()@ + suffix@,
{
    let mut s = String::from_str(f.name());
    s.append(suffix);
    s
}

/// A detail line of a feature: `text` then `value`, with its mark.
fn detail_text(supported: bool, text: &str, value: &str) -> (r: String)
    ensures
        r@ == detail_line(supported, text@ + value@),
{
    let mut t = String::from_str(text);
    t.append(value);
    marked_line_text(L3, to_char1(supported), t.as_str())
}

/// The lines that report one feature.
pub fn feature_report(f: &MmcFeature) -> (r: Vec<String>)
    ensures
        lines_view(r@) == feature_lines(*f),
{
    let mut lines: Vec<String> = Vec::new();
    let empty = "";
    proof {
        reveal_strlit("");
    }
    match f {
        MmcFeature::ProfileList { profiles } => {
            let name = name_with(f, ": ");
            lines.push(marked_line_text(L2, to_char(true), name.as_str()));
            let mut i: usize = 0;
            while i < profiles.len()
                invariant
                    i <= profiles@.len(),
                    lines_view(lines@) == seq![
                        marked_line(L2, active_mark(true), f.spec_name()@ + ": "@),
                    ] + profiles@.take(i as int).map_values(|p: MmcProfile| profile_line(p)),
                decreases profiles@.len() - i,
            {
                let p = profiles[i];
                let ghost before = lines@;
                let line = marked_line_text(L3, to_char(p.active), p.kind.name());
                lines.push(line);
                proof {
                    assert(lines@ == before.push(line));
                    assert(lines_view(lines@) =~= lines_view(before).push(profile_line(p)));
                    assert(profiles@.take(i + 1) =~= profiles@.take(i as int).push(p));
                    assert(lines_view(lines@) =~= seq![
                        marked_line(L2, active_mark(true), f.spec_name()@ + ": "@),
                    ] + profiles@.take(i + 1).map_values(|p: MmcProfile| profile_line(p)));
                }
                i = i + 1;
            }
            assert(profiles@.take(i as int) =~= profiles@);
        },
        MmcFeature::Core { interface } => {
            lines.push(marked_line_text(L2, to_char(true), name_with(f, ":").as_str()));
            lines.push(detail_text(true, "Interface: ", interface.name()));
        },
        MmcFeature::Morphing { async_events, op_chg_events } => {
            lines.push(marked_line_text(L2, to_char(true), name_with(f, ":").as_str()));
            lines.push(detail_text(*async_events, "Asynchronous events", empty));
            lines.push(detail_text(*op_chg_events, "Operational change events", empty));
        },
        MmcFeature::RemovableMedium { eject, lock, prevent_jumper, load_mech } => {
            lines.push(marked_line_text(L2, to_char(true), name_with(f, ":").as_str()));
            lines.push(detail_text(*eject, "Eject", empty));
            lines.push(detail_text(*lock, "Lock", empty));
            lines.push(detail_text(*prevent_jumper, "Prevent Jumper", empty));
            lines.push(detail_text(true, "Loading Mechanism: ", load_mech.name()));
        },
        MmcFeature::CdRead { active, c2_error, cd_text, dap } => {
            lines.push(marked_line_text(L2, to_char(*active), name_with(f, ":").as_str()));
            lines.push(detail_text(*c2_error, "C2 Errors", empty));
            lines.push(detail_text(*cd_text, "CD-Text", empty));
            lines.push(detail_text(*dap, "DAP", empty));
        },
        MmcFeature::CdAudioExternalPlay {
            active,
            scan,
            sep_channel_mute,
            sep_volume,
            volume_levels,
        } => {
            lines.push(marked_line_text(L2, to_char(*active), name_with(f, ":").as_str()));
            lines.push(detail_text(*scan, "SCAN", empty));
            lines.push(detail_text(*sep_channel_mute, "Separate Channel Mute", empty));
            lines.push(detail_text(*sep_volume, "Separate Volume", empty));
            let levels = decimal_text(*volume_levels as u64);
            lines.push(detail_text(true, "Volume Levels: ", levels.as_str()));
        },
        MmcFeature::DvdCss { active, .. } => {
            lines.push(marked_line_text(L2, to_char(*active), name_with(f, ":").as_str()));
        },
        MmcFeature::DriveSerialNumber { sno } => {
            lines.push(marked_line_text(L2, to_char(true), name_with(f, ":").as_str()));
            lines.push(detail_text(true, "S/N: ", sno.as_str()));
        },
        _ => {
            let mut s = String::from_str(L2);
            s.append(" (?) ");
            s.append(f.name());
            s.append(":");
            lines.push(s);
        },
    }
    proof {
        assert(lines_view(lines@) =~= feature_lines(*f));
    }
    lines
}

/// The report of a drive's features: a heading, then the lines of each
/// feature in turn.
pub fn features_report(features: &[MmcFeature]) -> (r: Vec<String>)
    ensures
        lines_view(r@) == seq![features_heading()] + features_lines(features@),
{
    let mut lines: Vec<String> = Vec::new();
    let mut heading = String::from_str(L1);
    heading.append(" Supported features:");
    lines.push(heading);
    let mut i: usize = 0;
    while i < features.len()
        invariant
            i <= features@.len(),
            lines_view(lines@) == seq![features_heading()] + features_lines(features@.take(i as int)),
        decreases features@.len() - i,
    {
        let more = feature_report(&features[i]);
        let ghost before = lines@;
        let mut j: usize = 0;
        while j < more.len()
            invariant
                j <= more@.len(),
                lines_view(lines@) == lines_view(before) + lines_view(more@).take(j as int),
            decreases more@.len() - j,
        {
            let line = more[j].clone();
            let ghost cur = lines@;
            lines.push(line);
            assert(line@ == lines_view(more@)[j as int]);
            assert(lines_view(lines@) =~= lines_view(cur).push(line@));
            assert(lines_view(more@).take(j + 1) =~= lines_view(more@).take(j as int).push(line@));
            assert(lines_view(lines@) =~= lines_view(before) + lines_view(more@).take(j + 1));
            j = j + 1;
        }
        proof {
            let fs = features@.take(i + 1);
            assert(fs.drop_last() =~= features@.take(i as int));
            assert(lines_view(more@).take(j as int) =~= lines_view(more@));
            assert(lines_view(lines@) =~= seq![features_heading()] + features_lines(fs));
        }
        i = i + 1;
    }
    assert(features@.take(i as int) =~= features@);
    lines
}

} // verus!
