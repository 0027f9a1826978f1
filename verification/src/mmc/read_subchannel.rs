//! Routines based on MMC `READ SUB-CHANNEL`: the command block, and the
//! decoding of audio status, media catalog number, ISRC and current
//! position.

use vstd::prelude::*;
use vstd::utf8::{decode_utf8, valid_utf8};

use crate::bytes::{be16_at, read_u16, u16_to_be};
use crate::mmc::{
    invalid_message, invalid_text, no_discriminant_message, no_discriminant_text, Cdb, MmcError,
};
use crate::text::decode_utf8_text;

verus! {

/// Operation code of `READ SUB-CHANNEL`.
pub const READ_SUBCHANNEL_OPCODE: u8 = 0x42;

/// Size of the buffer that receives a sub-channel response.
pub const SUBCHANNEL_DATA_SIZE: usize = 24;

/// Format to use for address fields in the response of `READ SUB-CHANNEL`
#[derive(Clone, Copy, Debug, PartialEq, Eq)]
pub enum AddressFormat {
    Lba,
    Time,
}

/// Sub-channel data format requested.
#[derive(Clone, Copy, Debug, PartialEq, Eq)]
pub enum SubchannelParameter {
    CdCurrentPosition,
    Mcn,
    Isrc { track_number: u8 },
}

impl SubchannelParameter {
    /// The format code of the parameter.
    pub open spec fn spec_discriminant(&self) -> u8 {
        match self {
            SubchannelParameter::CdCurrentPosition => 0x1,
            SubchannelParameter::Mcn => 0x2,
            SubchannelParameter::Isrc { .. } => 0x3,
        }
    }

    /// The format code of the parameter.
    #[verifier::when_used_as_spec(spec_discriminant)]
    pub fn discriminant(&self) -> (r: u8)
        ensures
            r == self.spec_discriminant(),
    {
        match self {
            SubchannelParameter::CdCurrentPosition => 0x1,
            SubchannelParameter::Mcn => 0x2,
            SubchannelParameter::Isrc { .. } => 0x3,
        }
    }
}

/// The command block of `READ SUB-CHANNEL`: the time bit (bit 1 of byte 1)
/// for time addresses, always the SubQ bit (bit 6 of byte 2), the format
/// code in byte 3, the track for an ISRC in byte 6 and the allocation
/// length in bytes 7 and 8.
pub fn read_subchannel_cdb(address_format: AddressFormat, param: SubchannelParameter, alloc_len: u16) -> (r: Cdb)
    ensures
        r@ == seq![
            READ_SUBCHANNEL_OPCODE,
            if address_format == AddressFormat::Time { 0x02u8 } else { 0u8 },
            0x40u8,
            param.spec_discriminant(),
            0u8,
            0u8,
            match param {
                SubchannelParameter::Isrc { track_number } => track_number,
                _ => 0u8,
            },
            (alloc_len / 0x100) as u8,
            (alloc_len % 0x100) as u8,
            0u8,
            0u8,
            0u8,
        ],
{
    let time: u8 = match address_format {
        AddressFormat::Time => 0x02,
        AddressFormat::Lba => 0,
    };
    let track: u8 = match param {
        SubchannelParameter::Isrc { track_number } => track_number,
        _ => 0,
    };
    let len = u16_to_be(alloc_len);
    let r = [READ_SUBCHANNEL_OPCODE, time, 0x40, param.discriminant(), 0, 0, track, len[0], len[1], 0, 0, 0];
    assert(r@ =~= seq![
        READ_SUBCHANNEL_OPCODE,
        if address_format == AddressFormat::Time { 0x02u8 } else { 0u8 },
        0x40u8,
        param.spec_discriminant(),
        0u8,
        0u8,
        match param {
            SubchannelParameter::Isrc { track_number } => track_number,
            _ => 0u8,
        },
        (alloc_len / 0x100) as u8,
        (alloc_len % 0x100) as u8,
        0u8,
        0u8,
        0u8,
    ]);
    r
}

/// The status of audio play operations
#[derive(Clone, Copy, Debug, Default, Eq, Hash, Ord, PartialEq, PartialOrd)]
pub enum MmcAudioStatus {
    /// Audio play operation in progress
    PlayInProgress,
    /// Audio play operation paused
    PlayPaused,
    /// Audio play operation successfully completed
    PlayCompleted,
    /// Audio play operation stopped due to error
    PlayStopped,
    /// No current audio status to return
    #[default]
    NoStatus,
}

/// The value of [`MmcAudioStatus`] with code `v`, if there is one.
pub open spec fn mmc_audio_status_of(v: u8) -> Option<MmcAudioStatus> {
    if v == 0x11 { Some(MmcAudioStatus::PlayInProgress) }
    else if v == 0x12 { Some(MmcAudioStatus::PlayPaused) }
    else if v == 0x13 { Some(MmcAudioStatus::PlayCompleted) }
    else if v == 0x14 { Some(MmcAudioStatus::PlayStopped) }
    else if v == 0x15 { Some(MmcAudioStatus::NoStatus) }
    else { None }
}

impl MmcAudioStatus {
    /// The value with code `v`, if there is one.
    pub fn from_code(v: u8) -> (r: Option<MmcAudioStatus>)
        ensures
            r == mmc_audio_status_of(v),
    {
        if v == 0x11 { Some(MmcAudioStatus::PlayInProgress) }
        else if v == 0x12 { Some(MmcAudioStatus::PlayPaused) }
        else if v == 0x13 { Some(MmcAudioStatus::PlayCompleted) }
        else if v == 0x14 { Some(MmcAudioStatus::PlayStopped) }
        else if v == 0x15 { Some(MmcAudioStatus::NoStatus) }
        else { None }
    }

    /// The code of the value.
    pub open spec fn spec_code(self) -> u8 {
        match self {
            MmcAudioStatus::PlayInProgress => 0x11,
            MmcAudioStatus::PlayPaused => 0x12,
            MmcAudioStatus::PlayCompleted => 0x13,
            MmcAudioStatus::PlayStopped => 0x14,
            MmcAudioStatus::NoStatus => 0x15,
        }
    }

    /// The code of the value.
    #[verifier::when_used_as_spec(spec_code)]
    pub fn code(self) -> (r: u8)
        ensures
            r == self.spec_code(),
    {
        match self {
            MmcAudioStatus::PlayInProgress => 0x11,
            MmcAudioStatus::PlayPaused => 0x12,
            MmcAudioStatus::PlayCompleted => 0x13,
            MmcAudioStatus::PlayStopped => 0x14,
            MmcAudioStatus::NoStatus => 0x15,
        }
    }
}


/// error from a `READ SUB-CHANNEL` command
#[non_exhaustive]
#[derive(Clone, Debug, PartialEq, Eq)]
pub enum MmcSubchannelError {
    /// operating system returned an error
    Cmd(MmcError),
    /// invalid response from mmc command: {0}
    InvalidResponse(String),
}

impl From<MmcError> for MmcSubchannelError {
    fn from(err: MmcError) -> (r: MmcSubchannelError) {
        MmcSubchannelError::Cmd(err)
    }
}

impl vstd::std_specs::convert::FromSpecImpl<MmcError> for MmcSubchannelError {
    open spec fn obeys_from_spec() -> bool {
        true
    }

    open spec fn from_spec(err: MmcError) -> MmcSubchannelError {
        MmcSubchannelError::Cmd(err)
    }
}

/// error getting audio status via `READ SUB-CHANNEL`
#[derive(Clone, Debug, PartialEq, Eq)]
pub enum MmcAudioStatusError {
    /// The device not support reporting audio status
    NotSupported,
    /// operating system returned an error: {0}
    Cmd(MmcError),
    /// invalid response from command
    InvalidResponse(String),
}

impl From<MmcError> for MmcAudioStatusError {
    fn from(err: MmcError) -> (r: MmcAudioStatusError) {
        MmcAudioStatusError::Cmd(err)
    }
}

impl vstd::std_specs::convert::FromSpecImpl<MmcError> for MmcAudioStatusError {
    open spec fn obeys_from_spec() -> bool {
        true
    }

    open spec fn from_spec(err: MmcError) -> MmcAudioStatusError {
        MmcAudioStatusError::Cmd(err)
    }
}

/// The audio status error that a sub-channel error becomes.
pub open spec fn audio_error_of(e: MmcSubchannelError) -> MmcAudioStatusError {
    match e {
        MmcSubchannelError::Cmd(c) => MmcAudioStatusError::Cmd(c),
        MmcSubchannelError::InvalidResponse(s) => MmcAudioStatusError::InvalidResponse(s),
    }
}

impl From<MmcSubchannelError> for MmcAudioStatusError {
    fn from(value: MmcSubchannelError) -> (r: MmcAudioStatusError) {
        match value {
            MmcSubchannelError::Cmd(error) => MmcAudioStatusError::Cmd(error),
            MmcSubchannelError::InvalidResponse(error) => MmcAudioStatusError::InvalidResponse(error),
        }
    }
}

impl vstd::std_specs::convert::FromSpecImpl<MmcSubchannelError> for MmcAudioStatusError {
    open spec fn obeys_from_spec() -> bool {
        true
    }

    open spec fn from_spec(value: MmcSubchannelError) -> MmcAudioStatusError {
        audio_error_of(value)
    }
}

fn invalid_response(label: &str) -> (r: MmcSubchannelError)
    ensures
        subchannel_invalid(r, invalid_message(label@)),
{
    MmcSubchannelError::InvalidResponse(invalid_text(label))
}

/// `e` is the error of an invalid response, with message `msg`.
pub open spec fn subchannel_invalid(e: MmcSubchannelError, msg: Seq<char>) -> bool {
    e matches MmcSubchannelError::InvalidResponse(m) && m@ == msg
}

/// The message of a response whose header is missing or announces more
/// than the buffer holds.
pub open spec fn subchannel_header_message() -> Seq<char> {
    invalid_message("READ SUB-CHANNEL response header"@)
}

/// The sub-channel data length that the header announces, in bytes 2
/// and 3.
pub open spec fn subchannel_data_len(data: Seq<u8>) -> int {
    be16_at(data, 2) as int
}

/// The header is present and the announced data fits the buffer.
pub open spec fn subchannel_framed(data: Seq<u8>) -> bool {
    data.len() >= 4 && 4 + subchannel_data_len(data) <= data.len()
}

/// The sub-channel data block that follows the header.
pub open spec fn subchannel_descriptor(data: Seq<u8>) -> Seq<u8> {
    data.subrange(4, 4 + subchannel_data_len(data))
}

/// The audio status that a framed header reports: `Some(None)` for code
/// 0, `None` for an unknown code.
pub open spec fn spec_header_audio_status(data: Seq<u8>) -> Option<Option<MmcAudioStatus>> {
    if data[1] == 0 {
        Some(None)
    } else {
        match mmc_audio_status_of(data[1]) {
            Some(s) => Some(Some(s)),
            None => None,
        }
    }
}

/// The header of `data` is refused: missing, announcing more than the
/// buffer holds, or reporting an unknown audio status.
pub open spec fn subchannel_header_refused(data: Seq<u8>) -> bool {
    !subchannel_framed(data) || spec_header_audio_status(data) is None
}

/// The message of a refused header: the header is malformed, or its audio
/// status is unknown.
pub open spec fn subchannel_header_error(data: Seq<u8>) -> Seq<char> {
    if !subchannel_framed(data) {
        subchannel_header_message()
    } else {
        no_discriminant_message("MmcAudioStatus"@, data[1] as nat)
    }
}

/// `r` is what a sub-channel query comes to on `data`: the header is
/// checked first, then the data block is decoded into `decoded`, an error
/// with message `message` where it does not decode.
pub open spec fn subchannel_result<T>(
    r: Result<T, MmcSubchannelError>,
    data: Seq<u8>,
    decoded: Option<T>,
    message: Seq<char>,
) -> bool {
    if subchannel_header_refused(data) {
        r matches Err(e) && subchannel_invalid(e, subchannel_header_error(data))
    } else {
        match decoded {
            Some(v) => r == Ok::<T, MmcSubchannelError>(v),
            None => r matches Err(e) && subchannel_invalid(e, message),
        }
    }
}

/// Reads the header of a response and returns the audio status that it
/// reports.
pub fn parse_header(data: &[u8]) -> (r: Result<Option<MmcAudioStatus>, MmcSubchannelError>)
    ensures
        subchannel_result(r, data@, spec_header_audio_status(data@), subchannel_header_message()),
{
    if data.len() < 4 {
        return Err(invalid_response("READ SUB-CHANNEL response header"));
    }
    let len = read_u16(&data[2..4]) as usize;
    assert(be16_at(data@.subrange(2, 4), 0) == be16_at(data@, 2));
    if len > data.len() - 4 {
        return Err(invalid_response("READ SUB-CHANNEL response header"));
    }
    let audio_status = data[1];
    if audio_status == 0 {
        Ok(None)
    } else {
        match MmcAudioStatus::from_code(audio_status) {
            Some(s) => Ok(Some(s)),
            None => Err(
                MmcSubchannelError::InvalidResponse(
                    no_discriminant_text("MmcAudioStatus", audio_status as u64),
                ),
            ),
        }
    }
}

fn descriptor_of(data: &[u8]) -> (d: &[u8])
    requires
        subchannel_framed(data@),
    ensures
        d@ == subchannel_descriptor(data@),
{
    let len = read_u16(&data[2..4]) as usize;
    assert(be16_at(data@.subrange(2, 4), 0) == be16_at(data@, 2));
    &data[4..4 + len]
}

/// Get the status of audio play operations from a response. A response
/// that reports no status means that the device does not support it.
pub fn audio_status_from(data: &[u8]) -> (r: Result<MmcAudioStatus, MmcAudioStatusError>)
    ensures
        subchannel_header_refused(data@) ==> (r matches Err(MmcAudioStatusError::InvalidResponse(m))
            && m@ == subchannel_header_error(data@)),
        subchannel_framed(data@) && spec_header_audio_status(data@) == Some(
            None::<MmcAudioStatus>,
        ) ==> r == Err::<MmcAudioStatus, MmcAudioStatusError>(MmcAudioStatusError::NotSupported),
        subchannel_framed(data@) ==> (spec_header_audio_status(data@) matches Some(Some(s)) ==> r
            == Ok::<MmcAudioStatus, MmcAudioStatusError>(s)),
{
    let status = match parse_header(data) {
        Ok(s) => s,
        Err(e) => return Err(MmcAudioStatusError::from(e)),
    };
    match status {
        Some(s) => Ok(s),
        None => Err(MmcAudioStatusError::NotSupported),
    }
}

/// The media catalog number descriptor is well formed: at least 20
/// bytes, format code 2 and a zero byte after the number.
pub open spec fn mcn_descriptor_valid(d: Seq<u8>) -> bool {
    d.len() >= 20 && d[0] == 2 && d[18] == 0
}

/// The MCVAL bit: the catalog number is present.
pub open spec fn mcn_present(d: Seq<u8>) -> bool {
    d[4] & 0x80 != 0
}

/// The thirteen bytes of the catalog number.
pub open spec fn mcn_bytes(d: Seq<u8>) -> Seq<u8> {
    d.subrange(5, 18)
}

/// Decoding of a catalog number response does not stop on it: where it
/// reports a number, the number is UTF-8.
pub open spec fn mcn_readable(data: Seq<u8>) -> bool {
    let d = subchannel_descriptor(data);
    !subchannel_header_refused(data) && mcn_descriptor_valid(d)
        && mcn_present(d) ==> valid_utf8(mcn_bytes(d))
}

/// Checks [`mcn_readable`].
pub fn mcn_is_readable(data: &[u8]) -> (r: bool)
    ensures
        r == mcn_readable(data@),
{
    match parse_header(data) {
        Err(_) => true,
        Ok(_) => {
            let d = descriptor_of(data);
            if d.len() >= 20 && d[0] == 2 && d[18] == 0 && d[4] & 0x80 != 0 {
                decode_utf8_text(&d[5..18]).is_some()
            } else {
                true
            }
        },
    }
}

/// Get the Media Catalog Number (UPC/bar code) from a response, if found.
pub fn media_catalog_number_from(data: &[u8]) -> (r: Result<Option<String>, MmcSubchannelError>)
    requires
        mcn_readable(data@),
    ensures
        !subchannel_header_refused(data@) ==> {
            let d = subchannel_descriptor(data@);
            &&& !mcn_descriptor_valid(d) ==> (r matches Err(e) && subchannel_invalid(
                e,
                invalid_message("media catalog number descriptor"@),
            ))
            &&& mcn_descriptor_valid(d) && !mcn_present(d) ==> r == Ok::<
                Option<String>,
                MmcSubchannelError,
            >(None)
            &&& mcn_descriptor_valid(d) && mcn_present(d) ==> (match r {
                Ok(Some(s)) => s@ == decode_utf8(mcn_bytes(d)),
                _ => false,
            })
        },
        subchannel_header_refused(data@) ==> (r matches Err(e) && subchannel_invalid(
            e,
            subchannel_header_error(data@),
        )),
{
    if let Err(e) = parse_header(data) {
        return Err(e);
    }
    let d = descriptor_of(data);
    if d.len() < 20 || d[0] != 2 || d[18] != 0 {
        return Err(invalid_response("media catalog number descriptor"));
    }
    let mcval = d[4] & 0x80 != 0;
    if !mcval {
        return Ok(None);
    }
    match decode_utf8_text(&d[5..18]) {
        Some(mcn) => Ok(Some(mcn)),
        None => Err(invalid_response("media catalog number descriptor")),
    }
}

/// Track number.
///
/// Values must be between 1 and 99.
/// Use [`TrackNumber::try_from`] to construct a new value.
#[derive(Clone, Copy, Debug, Eq, Hash, Ord, PartialEq, PartialOrd)]
pub struct TrackNumber(u8);

impl TrackNumber {
    /// The track number.
    pub closed spec fn spec_get(self) -> u8 {
        self.0
    }

    /// Every track number lies between 1 and 99.
    #[verifier::type_invariant]
    closed spec fn well_formed(self) -> bool {
        1 <= self.0 <= 99
    }

    /// The track number.
    #[verifier::when_used_as_spec(spec_get)]
    pub fn get(self) -> (r: u8)
        ensures
            r == self.spec_get(),
            1 <= r <= 99,
    {
        proof {
            use_type_invariant(&self);
        }
        self.0
    }
}

/// invalid track number '{0}'; value must be between 1 and 99
#[derive(Clone, Copy, Debug, PartialEq, Eq)]
pub struct InvalidTrackNumber(pub u8);

impl TryFrom<u8> for TrackNumber {
    type Error = InvalidTrackNumber;

    /// Construct `Self` from given track number.
    ///
    /// # Errors
    /// If the track number not within the range of 1 to 99, inclusive.
    fn try_from(track_number: u8) -> (r: Result<TrackNumber, InvalidTrackNumber>) {
        if 1 <= track_number && track_number <= 99 {
            Ok(TrackNumber(track_number))
        } else {
            Err(InvalidTrackNumber(track_number))
        }
    }
}

/// The track number `v` as a [`TrackNumber`], or the error that rejects it.
pub closed spec fn spec_track_number(v: u8) -> Result<TrackNumber, InvalidTrackNumber> {
    if 1 <= v <= 99 {
        Ok(TrackNumber(v))
    } else {
        Err(InvalidTrackNumber(v))
    }
}

impl vstd::std_specs::convert::TryFromSpecImpl<u8> for TrackNumber {
    open spec fn obeys_try_from_spec() -> bool {
        true
    }

    open spec fn try_from_spec(v: u8) -> Result<TrackNumber, InvalidTrackNumber> {
        spec_track_number(v)
    }
}

/// A track number is accepted exactly when it lies between 1 and 99, and
/// then it is kept as it is.
pub proof fn lemma_track_number_accepts(v: u8)
    ensures
        spec_track_number(v) is Ok <==> 1 <= v <= 99,
        spec_track_number(v) matches Ok(t) ==> t.spec_get() == v,
        spec_track_number(v) matches Err(e) ==> e == InvalidTrackNumber(v),
{
}

impl Default for TrackNumber {
    fn default() -> (r: TrackNumber)
        ensures
            r.spec_get() == 1,
    {
        TrackNumber(1)
    }
}

/// The ISRC descriptor is well formed for `track`: at least 19 bytes,
/// format code 3, the requested track, and a zero byte after the code.
pub open spec fn isrc_descriptor_valid(d: Seq<u8>, track: u8) -> bool {
    d.len() >= 19 && d[0] == 3 && d[2] == track && d[17] == 0
}

/// The TCVAL bit: the ISRC is present.
pub open spec fn isrc_present(d: Seq<u8>) -> bool {
    d[4] & 0x80 != 0
}

/// The twelve bytes of the ISRC.
pub open spec fn isrc_bytes(d: Seq<u8>) -> Seq<u8> {
    d.subrange(5, 17)
}

/// Decoding of an ISRC response does not stop on it: where it reports a
/// code, the code is UTF-8.
pub open spec fn isrc_readable(data: Seq<u8>, track: u8) -> bool {
    let d = subchannel_descriptor(data);
    !subchannel_header_refused(data) && isrc_descriptor_valid(
        d,
        track,
    ) && isrc_present(d) ==> valid_utf8(isrc_bytes(d))
}

/// Checks [`isrc_readable`].
pub fn isrc_is_readable(data: &[u8], track_number: TrackNumber) -> (r: bool)
    ensures
        r == isrc_readable(data@, track_number.spec_get()),
{
    let track = track_number.get();
    match parse_header(data) {
        Err(_) => true,
        Ok(_) => {
            let d = descriptor_of(data);
            if d.len() >= 19 && d[0] == 3 && d[2] == track && d[17] == 0 && d[4] & 0x80 != 0 {
                decode_utf8_text(&d[5..17]).is_some()
            } else {
                true
            }
        },
    }
}

/// Get the International Standard Recording Code (ISRC) of the given track
/// from a response.
pub fn isrc_from(data: &[u8], track_number: TrackNumber) -> (r: Result<Option<String>, MmcSubchannelError>)
    requires
        isrc_readable(data@, track_number.spec_get()),
    ensures
        !subchannel_header_refused(data@) ==> {
            let d = subchannel_descriptor(data@);
            let t = track_number.spec_get();
            &&& !isrc_descriptor_valid(d, t) ==> (r matches Err(e) && subchannel_invalid(
                e,
                invalid_message("isrc descriptor"@),
            ))
            &&& isrc_descriptor_valid(d, t) && !isrc_present(d) ==> r == Ok::<
                Option<String>,
                MmcSubchannelError,
            >(None)
            &&& isrc_descriptor_valid(d, t) && isrc_present(d) ==> (match r {
                Ok(Some(s)) => s@ == decode_utf8(isrc_bytes(d)),
                _ => false,
            })
        },
        subchannel_header_refused(data@) ==> (r matches Err(e) && subchannel_invalid(
            e,
            subchannel_header_error(data@),
        )),
{
    let track = track_number.get();
    if let Err(e) = parse_header(data) {
        return Err(e);
    }
    let d = descriptor_of(data);
    if d.len() < 19 || d[0] != 3 || d[2] != track || d[17] != 0 {
        return Err(invalid_response("isrc descriptor"));
    }
    let tcval = d[4] & 0x80 != 0;
    if !tcval {
        return Ok(None);
    }
    match decode_utf8_text(&d[5..17]) {
        Some(isrc) => Ok(Some(isrc)),
        None => Err(invalid_response("isrc descriptor")),
    }
}

/// A CD position, expressed in time units
#[derive(Clone, Copy, Debug, Default, Eq, Hash, Ord, PartialEq, PartialOrd)]
pub struct TimePosition {
    pub hour: u8,
    pub minute: u8,
    pub second: u8,
    pub frame: u8,
}

/// CD current position information.
#[derive(Clone, Copy, Debug, Default, Eq, Hash, Ord, PartialEq, PartialOrd)]
pub struct CdCurrentPosition {
    /// track number
    pub track: u8,
    /// index number
    pub index: u8,
    /// position relative to the logical beginning of the media
    pub absolute_position: TimePosition,
    /// position relative to the logical beginning of the current track
    pub relative_position: TimePosition,
}

/// The time position stored in the four bytes of `d` from `i` on.
pub open spec fn time_position_at(d: Seq<u8>, i: int) -> TimePosition {
    TimePosition { hour: d[i], minute: d[i + 1], second: d[i + 2], frame: d[i + 3] }
}

/// The current position descriptor decoded: `None` unless it has at least
/// 12 bytes and format code 1.
pub open spec fn spec_cd_current_position(d: Seq<u8>) -> Option<CdCurrentPosition> {
    if d.len() >= 12 && d[0] == 1 {
        Some(
            CdCurrentPosition {
                track: d[2],
                index: d[3],
                absolute_position: time_position_at(d, 4),
                relative_position: time_position_at(d, 8),
            },
        )
    } else {
        None
    }
}

/// Get the current position of the disc in time units from a response.
pub fn cd_current_position_from(data: &[u8]) -> (r: Result<CdCurrentPosition, MmcSubchannelError>)
    ensures
        subchannel_result(
            r,
            data@,
            spec_cd_current_position(subchannel_descriptor(data@)),
            invalid_message("cd current position descriptor"@),
        ),
{
    if let Err(e) = parse_header(data) {
        return Err(e);
    }
    let d = descriptor_of(data);
    if d.len() < 12 || d[0] != 1 {
        return Err(invalid_response("cd current position descriptor"));
    }
    let absolute_position = TimePosition { hour: d[4], minute: d[5], second: d[6], frame: d[7] };
    let relative_position = TimePosition { hour: d[8], minute: d[9], second: d[10], frame: d[11] };
    Ok(CdCurrentPosition { track: d[2], index: d[3], absolute_position, relative_position })
}

/// Every code that names a value of [`MmcAudioStatus`] is that value's code, and
/// every value's code names it.
pub proof fn lemma_audio_status_code_roundtrip(v: u8, k: MmcAudioStatus)
    ensures
        mmc_audio_status_of(v) matches Some(x) ==> x.spec_code() == v,
        mmc_audio_status_of(k.spec_code()) == Some(k),
{
}

/// A current position that a response reports is read field by field
/// from the response: after the four header bytes and the format code and
/// control byte, the track is byte 6 and the index byte 7; the absolute
/// address is bytes 8 to 11 and the address relative to the track bytes 12
/// to 15, each as hour, minute, second and frame.
pub proof fn lemma_current_position_fields(
    data: Seq<u8>,
    r: Result<CdCurrentPosition, MmcSubchannelError>,
)
    requires
        subchannel_result(
            r,
            data,
            spec_cd_current_position(subchannel_descriptor(data)),
            invalid_message("cd current position descriptor"@),
        ),
    ensures
        r matches Ok(p) ==> {
            &&& p.track == data[6]
            &&& p.index == data[7]
            &&& p.absolute_position.hour == data[8]
            &&& p.absolute_position.minute == data[9]
            &&& p.absolute_position.second == data[10]
            &&& p.absolute_position.frame == data[11]
            &&& p.relative_position.hour == data[12]
            &&& p.relative_position.minute == data[13]
            &&& p.relative_position.second == data[14]
            &&& p.relative_position.frame == data[15]
        },
{
}

/// The audio status is read from byte 1 of the response: the status with
/// that code, and no status where the byte is 0.
pub proof fn lemma_header_audio_status_code(data: Seq<u8>)
    requires
        data.len() >= 2,
    ensures
        spec_header_audio_status(data) == Some(None::<MmcAudioStatus>) <==> data[1] == 0,
        spec_header_audio_status(data) matches Some(Some(s)) ==> s.spec_code() == data[1],
{
}

/// A catalog number is read from the response: its data block starts with
/// format code 2 in byte 4, the MCVAL bit is the top bit of byte 8, and the
/// number is the decoding of the thirteen bytes 9 to 21; it is absent
/// where MCVAL is clear.
pub proof fn lemma_mcn_fields(data: Seq<u8>, r: Result<Option<String>, MmcSubchannelError>)
    requires
        !subchannel_header_refused(data) ==> {
            let d = subchannel_descriptor(data);
            &&& !mcn_descriptor_valid(d) ==> (r matches Err(e) && subchannel_invalid(
                e,
                invalid_message("media catalog number descriptor"@),
            ))
            &&& mcn_descriptor_valid(d) && !mcn_present(d) ==> r == Ok::<
                Option<String>,
                MmcSubchannelError,
            >(None)
            &&& mcn_descriptor_valid(d) && mcn_present(d) ==> (match r {
                Ok(Some(s)) => s@ == decode_utf8(mcn_bytes(d)),
                _ => false,
            })
        },
        subchannel_header_refused(data) ==> (r matches Err(e) && subchannel_invalid(
            e,
            subchannel_header_error(data),
        )),
    ensures
        r matches Ok(n) ==> data[4] == 2 && (n is Some <==> data[8] & 0x80 != 0),
        r matches Ok(Some(n)) ==> n@ == decode_utf8(data.subrange(9, 22)),
{
    if r is Ok {
        let d = subchannel_descriptor(data);
        assert(d[0] == data[4] && d[4] == data[8]);
        assert(mcn_bytes(d) =~= data.subrange(9, 22));
    }
}

/// An ISRC is read from the response: its data block starts with format
/// code 3 in byte 4 and names the requested track in byte 6, the TCVAL bit
/// is the top bit of byte 8, and the code is the decoding of the twelve
/// bytes 9 to 20; it is absent where TCVAL is clear.
pub proof fn lemma_isrc_fields(data: Seq<u8>, track: u8, r: Result<Option<String>, MmcSubchannelError>)
    requires
        !subchannel_header_refused(data) ==> {
            let d = subchannel_descriptor(data);
            &&& !isrc_descriptor_valid(d, track) ==> (r matches Err(e) && subchannel_invalid(
                e,
                invalid_message("isrc descriptor"@),
            ))
            &&& isrc_descriptor_valid(d, track) && !isrc_present(d) ==> r == Ok::<
                Option<String>,
                MmcSubchannelError,
            >(None)
            &&& isrc_descriptor_valid(d, track) && isrc_present(d) ==> (match r {
                Ok(Some(s)) => s@ == decode_utf8(isrc_bytes(d)),
                _ => false,
            })
        },
        subchannel_header_refused(data) ==> (r matches Err(e) && subchannel_invalid(
            e,
            subchannel_header_error(data),
        )),
    ensures
        r matches Ok(n) ==> data[4] == 3 && data[6] == track && (n is Some <==> data[8] & 0x80
            != 0),
        r matches Ok(Some(n)) ==> n@ == decode_utf8(data.subrange(9, 21)),
{
    if r is Ok {
        let d = subchannel_descriptor(data);
        assert(d[0] == data[4] && d[2] == data[6] && d[4] == data[8]);
        assert(isrc_bytes(d) =~= data.subrange(9, 21));
    }
}

} // verus!
