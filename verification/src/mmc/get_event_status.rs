//! Routines based on MMC `GET EVENT STATUS NOTIFICATION`: the command
//! block, and the decoding of the event classes that a drive reports.

use core::time::Duration;

use vstd::prelude::*;

use crate::bytes::{be16_at, read_u16, u16_to_be};
use crate::mmc::{
    invalid_message, invalid_text, no_discriminant_message, no_discriminant_text, Cdb, MmcError,
};
use crate::report::text::{binary_chars, binary_text};

verus! {

/// Operation code of `GET EVENT STATUS NOTIFICATION`.
pub const GET_EVENT_STATUS_OPCODE: u8 = 0x4A;

/// Size of the buffer that receives an event status response.
pub const EVENT_DATA_SIZE: usize = 12;

/// Notification class of `GET EVENT STATUS NOTIFICATION` command: a set of
/// event classes, one bit each.
#[derive(Clone, Copy, Debug, Default, Eq, Hash, Ord, PartialEq, PartialOrd)]
pub struct EventClass {
    bits: u8,
}

/// The bits that name an event class.
pub open spec fn event_class_all_bits() -> u8 {
    0x7E
}

impl EventClass {
    /// The raw bits of the set.
    pub closed spec fn spec_bits(&self) -> u8 {
        self.bits
    }

    /// The raw bits of the set.
    #[verifier::when_used_as_spec(spec_bits)]
    pub fn bits(&self) -> (r: u8)
        ensures
            r == self.spec_bits(),
    {
        self.bits
    }

    /// The set with exactly the raw bits `bits`.
    pub closed spec fn spec_from_bits_retain(bits: u8) -> EventClass {
        EventClass { bits }
    }

    /// Two sets with the same bits are the same set.
    pub proof fn lemma_bits_determine(a: EventClass, b: EventClass)
        ensures
            a.spec_bits() == b.spec_bits() ==> a == b,
            EventClass::spec_from_bits_retain(a.spec_bits()) == a,
    {
    }

    /// The set of the known classes among `bits`; other bits are dropped.
    pub fn from_bits_truncate(bits: u8) -> (r: EventClass)
        ensures
            r.spec_bits() == bits & event_class_all_bits(),
    {
        EventClass { bits: bits & 0x7E }
    }

    /// The set of the classes in `bits`, if all bits name a class.
    pub fn from_bits(bits: u8) -> (r: Option<EventClass>)
        ensures
            r is Some <==> bits & !event_class_all_bits() == 0,
            r matches Some(c) ==> c.spec_bits() == bits,
    {
        if bits & !0x7Eu8 == 0 {
            Some(EventClass { bits })
        } else {
            None
        }
    }

    /// The empty set.
    pub fn empty() -> (r: EventClass)
        ensures
            r.spec_bits() == 0,
    {
        EventClass { bits: 0 }
    }

    /// The set of all classes.
    pub fn all() -> (r: EventClass)
        ensures
            r.spec_bits() == event_class_all_bits(),
    {
        EventClass { bits: 0x7E }
    }

    /// Whether the set is empty.
    pub fn is_empty(&self) -> (r: bool)
        ensures
            r == (self.spec_bits() == 0),
    {
        self.bits == 0
    }

    /// Whether all classes of `other` are in the set.
    pub fn contains(&self, other: EventClass) -> (r: bool)
        ensures
            r == (self.spec_bits() & other.spec_bits() == other.spec_bits()),
    {
        self.bits & other.bits == other.bits
    }

    /// The classes in either set.
    pub fn union(self, other: EventClass) -> (r: EventClass)
        ensures
            r.spec_bits() == self.spec_bits() | other.spec_bits(),
    {
        EventClass { bits: self.bits | other.bits }
    }

    /// Change of operational capabilities or parameters for the drive.
    pub fn operational_change() -> (r: EventClass)
        ensures
            r.spec_bits() == 0x02,
    {
        EventClass { bits: 0x02 }
    }

    /// Changes to power status.
    pub fn power_management() -> (r: EventClass)
        ensures
            r.spec_bits() == 0x04,
    {
        EventClass { bits: 0x04 }
    }

    /// External requests such as a remote or a button.
    pub fn external_request() -> (r: EventClass)
        ensures
            r.spec_bits() == 0x08,
    {
        EventClass { bits: 0x08 }
    }

    /// Media related changes
    pub fn media() -> (r: EventClass)
        ensures
            r.spec_bits() == 0x10,
    {
        EventClass { bits: 0x10 }
    }

    /// Requests for control by other hosts.
    pub fn multi_host() -> (r: EventClass)
        ensures
            r.spec_bits() == 0x20,
    {
        EventClass { bits: 0x20 }
    }

    /// Commands that are executing but require a long time to complete.
    pub fn device_busy() -> (r: EventClass)
        ensures
            r.spec_bits() == 0x40,
    {
        EventClass { bits: 0x40 }
    }
}

/// Operation mode of `GET EVENT STATUS NOTIFICATION` command
#[derive(Clone, Copy, Debug, Default, Eq, Hash, Ord, PartialEq, PartialOrd)]
pub enum EventMode {
    /// Asynchronous events
    Async,
    /// Polled events
    #[default]
    Polled,
}

/// The command block of `GET EVENT STATUS NOTIFICATION` for `mode`, the
/// requested classes and an allocation length of `alloc_len` bytes.
pub fn event_status_cdb(mode: EventMode, class: EventClass, alloc_len: u16) -> (r: Cdb)
    ensures
        r@ == seq![
            GET_EVENT_STATUS_OPCODE,
            if mode == EventMode::Polled { 1u8 } else { 0u8 },
            0u8,
            0u8,
            class.spec_bits(),
            0u8,
            0u8,
            (alloc_len / 0x100) as u8,
            (alloc_len % 0x100) as u8,
            0u8,
            0u8,
            0u8,
        ],
{
    let polled: u8 = match mode {
        EventMode::Polled => 1,
        EventMode::Async => 0,
    };
    let len = u16_to_be(alloc_len);
    let r = [GET_EVENT_STATUS_OPCODE, polled, 0, 0, class.bits(), 0, 0, len[0], len[1], 0, 0, 0];
    assert(r@ =~= seq![
        GET_EVENT_STATUS_OPCODE,
        if mode == EventMode::Polled { 1u8 } else { 0u8 },
        0u8,
        0u8,
        class.spec_bits(),
        0u8,
        0u8,
        (alloc_len / 0x100) as u8,
        (alloc_len % 0x100) as u8,
        0u8,
        0u8,
        0u8,
    ]);
    r
}

/// error from a `GET EVENT STATUS NOTIFICATION` command
#[non_exhaustive]
#[derive(Clone, Debug, PartialEq, Eq)]
pub enum MmcStatusError {
    /// error performing MMC command
    Cmd(MmcError),
    /// invalid response from mmc command: {0}
    InvalidResponse(String),
    /// device does not support: {0:?}
    EventNotSupported(EventClass),
}

impl From<MmcError> for MmcStatusError {
    fn from(err: MmcError) -> (r: MmcStatusError) {
        MmcStatusError::Cmd(err)
    }
}

impl vstd::std_specs::convert::FromSpecImpl<MmcError> for MmcStatusError {
    open spec fn obeys_from_spec() -> bool {
        true
    }

    open spec fn from_spec(err: MmcError) -> MmcStatusError {
        MmcStatusError::Cmd(err)
    }
}

fn invalid_response(label: &str) -> (r: MmcStatusError)
    ensures
        status_invalid(r, invalid_message(label@)),
{
    MmcStatusError::InvalidResponse(invalid_text(label))
}

/// The outcome of checking the header of a response against the expected
/// class.
#[derive(Clone, Copy, Debug, PartialEq, Eq)]
pub enum HeaderCheck {
    /// The header is cut short or announces a length that the buffer does
    /// not hold.
    Malformed,
    /// The drive has no event of the expected class to report.
    NotSupported,
    /// The drive reports a class other than the expected one.
    WrongClass,
    /// The header is sound.
    Valid,
}

/// The length that a response header announces, which counts the bytes
/// after the length field.
pub open spec fn event_data_len(data: Seq<u8>) -> int {
    be16_at(data, 0) as int
}

/// Whether the header can be read: a length field, and at least the two
/// header bytes that follow it within the announced length.
pub open spec fn event_header_framed(data: Seq<u8>) -> bool {
    &&& data.len() >= 2
    &&& event_data_len(data) >= 2
    &&& 2 + event_data_len(data) <= data.len()
}

/// The "no event available" bit of the header.
pub open spec fn event_nea(data: Seq<u8>) -> bool {
    data[2] & 0x80 != 0
}

/// The class that the header reports, as a bit.
pub open spec fn event_reported_class_bit(data: Seq<u8>) -> u8 {
    (1u8 << (data[2] & 0x07)) as u8
}

/// How the header of `data` stands against the expected class.
pub open spec fn event_header_check(expected: EventClass, data: Seq<u8>) -> HeaderCheck {
    if !event_header_framed(data) {
        HeaderCheck::Malformed
    } else if expected.spec_bits() != 0 && event_nea(data) {
        HeaderCheck::NotSupported
    } else if expected.spec_bits() != 0 && event_reported_class_bit(data) != expected.spec_bits() {
        HeaderCheck::WrongClass
    } else {
        HeaderCheck::Valid
    }
}

/// The event descriptor: the bytes that the announced length covers after
/// the header.
pub open spec fn event_descriptor(data: Seq<u8>) -> Seq<u8> {
    data.subrange(4, 2 + event_data_len(data))
}

/// `e` is the error of an invalid response, with message `msg`.
pub open spec fn status_invalid(e: MmcStatusError, msg: Seq<char>) -> bool {
    e matches MmcStatusError::InvalidResponse(m) && m@ == msg
}

/// The message of a response whose header is cut short or announces more
/// than the buffer holds.
pub open spec fn status_header_message() -> Seq<char> {
    invalid_message("GET EVENT STATUS NOTIFICATION response header"@)
}

/// The message of a response that reports class bit `got` where `expected`
/// was asked for, both written in binary.
pub open spec fn wrong_class_message(expected: u8, got: u8) -> Seq<char> {
    "invalid event code, expected 0b"@ + binary_chars(expected as nat) + " got 0b"@
        + binary_chars(got as nat)
}

/// `r` is what a status query comes to on `data`: the header check, then,
/// on a sound header, the decoding of the descriptor into `decoded`, an
/// error with message `message` where the descriptor holds an invalid
/// value or is too short.
pub open spec fn status_result<T>(
    r: Result<T, MmcStatusError>,
    expected: EventClass,
    data: Seq<u8>,
    decoded: Option<T>,
    message: Seq<char>,
) -> bool {
    match event_header_check(expected, data) {
        HeaderCheck::Malformed => r matches Err(e) && status_invalid(e, status_header_message()),
        HeaderCheck::WrongClass => r matches Err(e) && status_invalid(
            e,
            wrong_class_message(expected.spec_bits(), event_reported_class_bit(data)),
        ),
        HeaderCheck::NotSupported => r == Err::<T, MmcStatusError>(
            MmcStatusError::EventNotSupported(expected),
        ),
        HeaderCheck::Valid => match decoded {
            Some(v) => r == Ok::<T, MmcStatusError>(v),
            None => r matches Err(e) && status_invalid(e, message),
        },
    }
}

/// Validate the header with the expected class and return the supported
/// events. An empty `expected` accepts any class.
pub fn parse_header(expected_class: EventClass, data: &[u8]) -> (r: Result<EventClass, MmcStatusError>)
    ensures
        status_result(
            r,
            expected_class,
            data@,
            Some(EventClass::spec_from_bits_retain(data@[3] & event_class_all_bits())),
            status_header_message(),
        ),
{
    if data.len() < 2 {
        return Err(invalid_response("GET EVENT STATUS NOTIFICATION response header"));
    }
    let len = read_u16(data) as usize;
    if len < 2 || len > data.len() - 2 {
        return Err(invalid_response("GET EVENT STATUS NOTIFICATION response header"));
    }
    let nea = data[2] & 0x80 != 0;
    let notif_class = data[2] & 0x07;
    if !expected_class.is_empty() && nea {
        return Err(MmcStatusError::EventNotSupported(expected_class));
    }
    let b2 = data[2];
    assert(b2 & 0x07 < 8) by (bit_vector);
    let event_class: u8 = 1u8 << notif_class;
    if !expected_class.is_empty() && event_class != expected_class.bits() {
        let mut message = String::from_str("invalid event code, expected 0b");
        let expected_bits = binary_text(expected_class.bits() as u64);
        message.append(expected_bits.as_str());
        message.append(" got 0b");
        let got_bits = binary_text(event_class as u64);
        message.append(got_bits.as_str());
        return Err(MmcStatusError::InvalidResponse(message));
    }
    let r = EventClass::from_bits_truncate(data[3]);
    proof {
        EventClass::lemma_bits_determine(r, EventClass::spec_from_bits_retain(data@[3] & event_class_all_bits()));
    }
    Ok(r)
}

/// The supported event classes that a response with no requested class
/// reports.
pub fn supported_events_from(data: &[u8]) -> (r: Result<EventClass, MmcStatusError>)
    ensures
        status_result(
            r,
            EventClass::spec_from_bits_retain(0),
            data@,
            Some(EventClass::spec_from_bits_retain(data@[3] & event_class_all_bits())),
            status_header_message(),
        ),
{
    let empty = EventClass::empty();
    proof {
        EventClass::lemma_bits_determine(empty, EventClass::spec_from_bits_retain(0));
    }
    parse_header(empty, data)
}

/// Event descriptor bytes of a response whose header is sound.
fn descriptor_of(data: &[u8]) -> (d: &[u8])
    requires
        event_header_framed(data@),
    ensures
        d@ == event_descriptor(data@),
{
    let len = read_u16(data) as usize;
    &data[4..2 + len]
}

/// Source of operational changes to the device
#[derive(Clone, Copy, Debug, Default, Eq, Hash, Ord, PartialEq, PartialOrd)]
pub enum OperationalEvent {
    /// An unspecified event may have changed feature currency
    #[default]
    FeatureChange,
    /// The feature list may have added current features
    NewFeatures,
    /// The logical unit has been reset
    Reset,
    /// The logical unit's microcode may have changed
    FirmwareChanged,
    /// The logical unit's identification information may have changed
    InquiryChange,
}

/// The value of [`OperationalEvent`] with code `v`, if there is one.
pub open spec fn operational_event_of(v: u16) -> Option<OperationalEvent> {
    if v == 0x1 { Some(OperationalEvent::FeatureChange) }
    else if v == 0x2 { Some(OperationalEvent::NewFeatures) }
    else if v == 0x3 { Some(OperationalEvent::Reset) }
    else if v == 0x4 { Some(OperationalEvent::FirmwareChanged) }
    else if v == 0x5 { Some(OperationalEvent::InquiryChange) }
    else { None }
}

impl OperationalEvent {
    /// The value with code `v`, if there is one.
    pub fn from_code(v: u16) -> (r: Option<OperationalEvent>)
        ensures
            r == operational_event_of(v),
    {
        if v == 0x1 { Some(OperationalEvent::FeatureChange) }
        else if v == 0x2 { Some(OperationalEvent::NewFeatures) }
        else if v == 0x3 { Some(OperationalEvent::Reset) }
        else if v == 0x4 { Some(OperationalEvent::FirmwareChanged) }
        else if v == 0x5 { Some(OperationalEvent::InquiryChange) }
        else { None }
    }

    /// The code of the value.
    pub open spec fn spec_code(self) -> u16 {
        match self {
            OperationalEvent::FeatureChange => 0x1,
            OperationalEvent::NewFeatures => 0x2,
            OperationalEvent::Reset => 0x3,
            OperationalEvent::FirmwareChanged => 0x4,
            OperationalEvent::InquiryChange => 0x5,
        }
    }

    /// The code of the value.
    #[verifier::when_used_as_spec(spec_code)]
    pub fn code(self) -> (r: u16)
        ensures
            r == self.spec_code(),
    {
        match self {
            OperationalEvent::FeatureChange => 0x1,
            OperationalEvent::NewFeatures => 0x2,
            OperationalEvent::Reset => 0x3,
            OperationalEvent::FirmwareChanged => 0x4,
            OperationalEvent::InquiryChange => 0x5,
        }
    }
}

/// The power change event
#[derive(Clone, Copy, Debug, Default, Eq, Hash, Ord, PartialEq, PartialOrd)]
pub enum PowerEvent {
    /// The drive successfully changed to the specified power state
    #[default]
    PwrChgSuccessful,
    /// The drive failed to enter the last requested state and is still
    /// operating at the power state specified in the `status` field
    PwrChgFail,
}

/// The value of [`PowerEvent`] with code `v`, if there is one.
pub open spec fn power_event_of(v: u8) -> Option<PowerEvent> {
    if v == 0x1 { Some(PowerEvent::PwrChgSuccessful) }
    else if v == 0x2 { Some(PowerEvent::PwrChgFail) }
    else { None }
}

impl PowerEvent {
    /// The value with code `v`, if there is one.
    pub fn from_code(v: u8) -> (r: Option<PowerEvent>)
        ensures
            r == power_event_of(v),
    {
        if v == 0x1 { Some(PowerEvent::PwrChgSuccessful) }
        else if v == 0x2 { Some(PowerEvent::PwrChgFail) }
        else { None }
    }

    /// The code of the value.
    pub open spec fn spec_code(self) -> u8 {
        match self {
            PowerEvent::PwrChgSuccessful => 0x1,
            PowerEvent::PwrChgFail => 0x2,
        }
    }

    /// The code of the value.
    #[verifier::when_used_as_spec(spec_code)]
    pub fn code(self) -> (r: u8)
        ensures
            r == self.spec_code(),
    {
        match self {
            PowerEvent::PwrChgSuccessful => 0x1,
            PowerEvent::PwrChgFail => 0x2,
        }
    }
}

/// The current power state of the drive
#[derive(Clone, Copy, Debug, Default, Eq, Hash, Ord, PartialEq, PartialOrd)]
pub enum PowerState {
    /// Active
    #[default]
    Active,
    /// Idle
    Idle,
    /// Standby
    Standby,
    /// The drive is about to enter Sleep
    Sleep,
}

/// The value of [`PowerState`] with code `v`, if there is one.
pub open spec fn power_state_of(v: u8) -> Option<PowerState> {
    if v == 0x1 { Some(PowerState::Active) }
    else if v == 0x2 { Some(PowerState::Idle) }
    else if v == 0x3 { Some(PowerState::Standby) }
    else if v == 0x4 { Some(PowerState::Sleep) }
    else { None }
}

impl PowerState {
    /// The value with code `v`, if there is one.
    pub fn from_code(v: u8) -> (r: Option<PowerState>)
        ensures
            r == power_state_of(v),
    {
        if v == 0x1 { Some(PowerState::Active) }
        else if v == 0x2 { Some(PowerState::Idle) }
        else if v == 0x3 { Some(PowerState::Standby) }
        else if v == 0x4 { Some(PowerState::Sleep) }
        else { None }
    }

    /// The code of the value.
    pub open spec fn spec_code(self) -> u8 {
        match self {
            PowerState::Active => 0x1,
            PowerState::Idle => 0x2,
            PowerState::Standby => 0x3,
            PowerState::Sleep => 0x4,
        }
    }

    /// The code of the value.
    #[verifier::when_used_as_spec(spec_code)]
    pub fn code(self) -> (r: u8)
        ensures
            r == self.spec_code(),
    {
        match self {
            PowerState::Active => 0x1,
            PowerState::Idle => 0x2,
            PowerState::Standby => 0x3,
            PowerState::Sleep => 0x4,
        }
    }
}

/// External request events to the device
#[derive(Clone, Copy, Debug, Default, Eq, Hash, Ord, PartialEq, PartialOrd)]
pub enum ExternalRequestEvent {
    /// A front, back, or remote button has been depressed
    DriveKeyDown,
    /// A front, back, or remote button has been released
    DriveKeyUp,
    /// The drive has received a command from another host that requires an
    /// action that may interfere with the persistent prevent owner's
    /// operation
    #[default]
    ExternalRequestNotification,
}

/// The value of [`ExternalRequestEvent`] with code `v`, if there is one.
pub open spec fn external_request_event_of(v: u8) -> Option<ExternalRequestEvent> {
    if v == 0x1 { Some(ExternalRequestEvent::DriveKeyDown) }
    else if v == 0x2 { Some(ExternalRequestEvent::DriveKeyUp) }
    else if v == 0x3 { Some(ExternalRequestEvent::ExternalRequestNotification) }
    else { None }
}

impl ExternalRequestEvent {
    /// The value with code `v`, if there is one.
    pub fn from_code(v: u8) -> (r: Option<ExternalRequestEvent>)
        ensures
            r == external_request_event_of(v),
    {
        if v == 0x1 { Some(ExternalRequestEvent::DriveKeyDown) }
        else if v == 0x2 { Some(ExternalRequestEvent::DriveKeyUp) }
        else if v == 0x3 { Some(ExternalRequestEvent::ExternalRequestNotification) }
        else { None }
    }

    /// The code of the value.
    pub open spec fn spec_code(self) -> u8 {
        match self {
            ExternalRequestEvent::DriveKeyDown => 0x1,
            ExternalRequestEvent::DriveKeyUp => 0x2,
            ExternalRequestEvent::ExternalRequestNotification => 0x3,
        }
    }

    /// The code of the value.
    #[verifier::when_used_as_spec(spec_code)]
    pub fn code(self) -> (r: u8)
        ensures
            r == self.spec_code(),
    {
        match self {
            ExternalRequestEvent::DriveKeyDown => 0x1,
            ExternalRequestEvent::DriveKeyUp => 0x2,
            ExternalRequestEvent::ExternalRequestNotification => 0x3,
        }
    }
}

/// The device's ability to respond to the host
#[derive(Clone, Copy, Debug, Default, Eq, Hash, Ord, PartialEq, PartialOrd)]
pub enum ExternalRequestState {
    /// The drive is ready for operation
    #[default]
    Ready,
    /// Another host has an active persistent prevent
    OtherPrevent,
}

/// The value of [`ExternalRequestState`] with code `v`, if there is one.
pub open spec fn external_request_state_of(v: u8) -> Option<ExternalRequestState> {
    if v == 0x0 { Some(ExternalRequestState::Ready) }
    else if v == 0x1 { Some(ExternalRequestState::OtherPrevent) }
    else { None }
}

impl ExternalRequestState {
    /// The value with code `v`, if there is one.
    pub fn from_code(v: u8) -> (r: Option<ExternalRequestState>)
        ensures
            r == external_request_state_of(v),
    {
        if v == 0x0 { Some(ExternalRequestState::Ready) }
        else if v == 0x1 { Some(ExternalRequestState::OtherPrevent) }
        else { None }
    }

    /// The code of the value.
    pub open spec fn spec_code(self) -> u8 {
        match self {
            ExternalRequestState::Ready => 0x0,
            ExternalRequestState::OtherPrevent => 0x1,
        }
    }

    /// The code of the value.
    #[verifier::when_used_as_spec(spec_code)]
    pub fn code(self) -> (r: u8)
        ensures
            r == self.spec_code(),
    {
        match self {
            ExternalRequestState::Ready => 0x0,
            ExternalRequestState::OtherPrevent => 0x1,
        }
    }
}

/// Operation requested or performed via an external request to the device
#[derive(Clone, Copy, Debug, Default, Eq, Hash, Ord, PartialEq, PartialOrd)]
pub enum ExternalRequest {
    /// The request queue has overflowed. External Request events may be lost.
    Overrun,
    /// The play button was pressed or was requested by another host.
    Play,
    /// The rewind/back button was pressed or was requested by another host.
    RewindOrBack,
    /// The fast forward button was pressed or was requested by another host.
    FastForward,
    /// The pause button was pressed or was requested by another host.
    Pause,
    /// The stop button was pressed or was requested by another host.
    Stop,
    /// A front panel button was pressed or was requested by another host.
    Ascii,
    /// A vendor unique request
    #[default]
    VendorUnique,
}

/// The value of [`ExternalRequest`] with code `v`, if there is one.
pub open spec fn external_request_of(v: u16) -> Option<ExternalRequest> {
    if v == 0x1 { Some(ExternalRequest::Overrun) }
    else if v == 0x101 { Some(ExternalRequest::Play) }
    else if v == 0x102 { Some(ExternalRequest::RewindOrBack) }
    else if v == 0x103 { Some(ExternalRequest::FastForward) }
    else if v == 0x104 { Some(ExternalRequest::Pause) }
    else if v == 0x106 { Some(ExternalRequest::Stop) }
    else if v == 0x107 { Some(ExternalRequest::Ascii) }
    else if 0xF000 <= v && v <= 0xFFFF { Some(ExternalRequest::VendorUnique) }
    else { None }
}

impl ExternalRequest {
    /// The value with code `v`, if there is one.
    pub fn from_code(v: u16) -> (r: Option<ExternalRequest>)
        ensures
            r == external_request_of(v),
    {
        if v == 0x1 { Some(ExternalRequest::Overrun) }
        else if v == 0x101 { Some(ExternalRequest::Play) }
        else if v == 0x102 { Some(ExternalRequest::RewindOrBack) }
        else if v == 0x103 { Some(ExternalRequest::FastForward) }
        else if v == 0x104 { Some(ExternalRequest::Pause) }
        else if v == 0x106 { Some(ExternalRequest::Stop) }
        else if v == 0x107 { Some(ExternalRequest::Ascii) }
        else if 0xF000 <= v && v <= 0xFFFF { Some(ExternalRequest::VendorUnique) }
        else { None }
    }

    /// The code of the value.
    pub open spec fn spec_code(self) -> u16 {
        match self {
            ExternalRequest::Overrun => 0x1,
            ExternalRequest::Play => 0x101,
            ExternalRequest::RewindOrBack => 0x102,
            ExternalRequest::FastForward => 0x103,
            ExternalRequest::Pause => 0x104,
            ExternalRequest::Stop => 0x106,
            ExternalRequest::Ascii => 0x107,
            ExternalRequest::VendorUnique => 0xF000,
        }
    }

    /// The code of the value.
    #[verifier::when_used_as_spec(spec_code)]
    pub fn code(self) -> (r: u16)
        ensures
            r == self.spec_code(),
    {
        match self {
            ExternalRequest::Overrun => 0x1,
            ExternalRequest::Play => 0x101,
            ExternalRequest::RewindOrBack => 0x102,
            ExternalRequest::FastForward => 0x103,
            ExternalRequest::Pause => 0x104,
            ExternalRequest::Stop => 0x106,
            ExternalRequest::Ascii => 0x107,
            ExternalRequest::VendorUnique => 0xF000,
        }
    }
}

/// Media event
#[derive(Clone, Copy, Debug, Default, Eq, Hash, Ord, PartialEq, PartialOrd)]
pub enum MediaEvent {
    /// The drive has received a request from the user to eject the specified
    /// slot or media
    #[default]
    EjectRequest,
    /// The specified slot has received new media and is ready to access it
    NewMedia,
    /// The media has been removed from the specified slot and the drive is
    /// unable to access the media without user intervention.
    /// This applies to media changers only.
    MediaRemoval,
    /// The user has requested that the media in the specified slot be loaded.
    /// This applies to media changers only.
    MediaChanged,
    /// A DVD+RW background format has completed.
    BackgroundFormatCompleted,
    /// A DVD+RW background format has been automatically restarted by the
    /// drive.
    BackgroundFormatRestarted,
}

/// The value of [`MediaEvent`] with code `v`, if there is one.
pub open spec fn media_event_of(v: u8) -> Option<MediaEvent> {
    if v == 0x1 { Some(MediaEvent::EjectRequest) }
    else if v == 0x2 { Some(MediaEvent::NewMedia) }
    else if v == 0x3 { Some(MediaEvent::MediaRemoval) }
    else if v == 0x4 { Some(MediaEvent::MediaChanged) }
    else if v == 0x5 { Some(MediaEvent::BackgroundFormatCompleted) }
    else if v == 0x6 { Some(MediaEvent::BackgroundFormatRestarted) }
    else { None }
}

impl MediaEvent {
    /// The value with code `v`, if there is one.
    pub fn from_code(v: u8) -> (r: Option<MediaEvent>)
        ensures
            r == media_event_of(v),
    {
        if v == 0x1 { Some(MediaEvent::EjectRequest) }
        else if v == 0x2 { Some(MediaEvent::NewMedia) }
        else if v == 0x3 { Some(MediaEvent::MediaRemoval) }
        else if v == 0x4 { Some(MediaEvent::MediaChanged) }
        else if v == 0x5 { Some(MediaEvent::BackgroundFormatCompleted) }
        else if v == 0x6 { Some(MediaEvent::BackgroundFormatRestarted) }
        else { None }
    }

    /// The code of the value.
    pub open spec fn spec_code(self) -> u8 {
        match self {
            MediaEvent::EjectRequest => 0x1,
            MediaEvent::NewMedia => 0x2,
            MediaEvent::MediaRemoval => 0x3,
            MediaEvent::MediaChanged => 0x4,
            MediaEvent::BackgroundFormatCompleted => 0x5,
            MediaEvent::BackgroundFormatRestarted => 0x6,
        }
    }

    /// The code of the value.
    #[verifier::when_used_as_spec(spec_code)]
    pub fn code(self) -> (r: u8)
        ensures
            r == self.spec_code(),
    {
        match self {
            MediaEvent::EjectRequest => 0x1,
            MediaEvent::NewMedia => 0x2,
            MediaEvent::MediaRemoval => 0x3,
            MediaEvent::MediaChanged => 0x4,
            MediaEvent::BackgroundFormatCompleted => 0x5,
            MediaEvent::BackgroundFormatRestarted => 0x6,
        }
    }
}

/// Requests for drive control and state changes from other hosts
#[derive(Clone, Copy, Debug, Default, Eq, Hash, Ord, PartialEq, PartialOrd)]
pub enum MultiHostEvent {
    /// Another host has requested drive control
    #[default]
    ControlRequest,
    /// Another host has received drive control
    ControlGrant,
    /// Another host has released drive control
    ControlRelease,
}

/// The value of [`MultiHostEvent`] with code `v`, if there is one.
pub open spec fn multi_host_event_of(v: u8) -> Option<MultiHostEvent> {
    if v == 0x1 { Some(MultiHostEvent::ControlRequest) }
    else if v == 0x2 { Some(MultiHostEvent::ControlGrant) }
    else if v == 0x3 { Some(MultiHostEvent::ControlRelease) }
    else { None }
}

impl MultiHostEvent {
    /// The value with code `v`, if there is one.
    pub fn from_code(v: u8) -> (r: Option<MultiHostEvent>)
        ensures
            r == multi_host_event_of(v),
    {
        if v == 0x1 { Some(MultiHostEvent::ControlRequest) }
        else if v == 0x2 { Some(MultiHostEvent::ControlGrant) }
        else if v == 0x3 { Some(MultiHostEvent::ControlRelease) }
        else { None }
    }

    /// The code of the value.
    pub open spec fn spec_code(self) -> u8 {
        match self {
            MultiHostEvent::ControlRequest => 0x1,
            MultiHostEvent::ControlGrant => 0x2,
            MultiHostEvent::ControlRelease => 0x3,
        }
    }

    /// The code of the value.
    #[verifier::when_used_as_spec(spec_code)]
    pub fn code(self) -> (r: u8)
        ensures
            r == self.spec_code(),
    {
        match self {
            MultiHostEvent::ControlRequest => 0x1,
            MultiHostEvent::ControlGrant => 0x2,
            MultiHostEvent::ControlRelease => 0x3,
        }
    }
}

/// Ability of the drive to respond to the host
#[derive(Clone, Copy, Debug, Default, Eq, Hash, Ord, PartialEq, PartialOrd)]
pub enum MultiHostState {
    /// The drive is ready for operation
    #[default]
    Ready,
    /// Another host has an active persistent prevent.
    OtherPrevent,
}

/// The value of [`MultiHostState`] with code `v`, if there is one.
pub open spec fn multi_host_state_of(v: u8) -> Option<MultiHostState> {
    if v == 0x0 { Some(MultiHostState::Ready) }
    else if v == 0x1 { Some(MultiHostState::OtherPrevent) }
    else { None }
}

impl MultiHostState {
    /// The value with code `v`, if there is one.
    pub fn from_code(v: u8) -> (r: Option<MultiHostState>)
        ensures
            r == multi_host_state_of(v),
    {
        if v == 0x0 { Some(MultiHostState::Ready) }
        else if v == 0x1 { Some(MultiHostState::OtherPrevent) }
        else { None }
    }

    /// The code of the value.
    pub open spec fn spec_code(self) -> u8 {
        match self {
            MultiHostState::Ready => 0x0,
            MultiHostState::OtherPrevent => 0x1,
        }
    }

    /// The code of the value.
    #[verifier::when_used_as_spec(spec_code)]
    pub fn code(self) -> (r: u8)
        ensures
            r == self.spec_code(),
    {
        match self {
            MultiHostState::Ready => 0x0,
            MultiHostState::OtherPrevent => 0x1,
        }
    }
}

/// Priority of tasks relative to the other host
#[derive(Clone, Copy, Debug, Default, Eq, Hash, Ord, PartialEq, PartialOrd)]
pub enum MultiHostPriority {
    /// No tasks pending on the host
    #[default]
    Low,
    /// No critical tasks pending on the host
    Medium,
    /// There are critical tasks pending on the host
    High,
}

/// The value of [`MultiHostPriority`] with code `v`, if there is one.
pub open spec fn multi_host_priority_of(v: u16) -> Option<MultiHostPriority> {
    if v == 0x1 { Some(MultiHostPriority::Low) }
    else if v == 0x2 { Some(MultiHostPriority::Medium) }
    else if v == 0x3 { Some(MultiHostPriority::High) }
    else { None }
}

impl MultiHostPriority {
    /// The value with code `v`, if there is one.
    pub fn from_code(v: u16) -> (r: Option<MultiHostPriority>)
        ensures
            r == multi_host_priority_of(v),
    {
        if v == 0x1 { Some(MultiHostPriority::Low) }
        else if v == 0x2 { Some(MultiHostPriority::Medium) }
        else if v == 0x3 { Some(MultiHostPriority::High) }
        else { None }
    }

    /// The code of the value.
    pub open spec fn spec_code(self) -> u16 {
        match self {
            MultiHostPriority::Low => 0x1,
            MultiHostPriority::Medium => 0x2,
            MultiHostPriority::High => 0x3,
        }
    }

    /// The code of the value.
    #[verifier::when_used_as_spec(spec_code)]
    pub fn code(self) -> (r: u16)
        ensures
            r == self.spec_code(),
    {
        match self {
            MultiHostPriority::Low => 0x1,
            MultiHostPriority::Medium => 0x2,
            MultiHostPriority::High => 0x3,
        }
    }
}

/// Device busy events
#[derive(Clone, Copy, Debug, Default, Eq, Hash, Ord, PartialEq, PartialOrd)]
pub enum BusyEvent {
    /// The drive busy state has changed
    #[default]
    Change,
    /// The drive busy condition has been changed by a loading/unloading
    /// operation that is not caused by command execution
    LoChange,
}

/// The value of [`BusyEvent`] with code `v`, if there is one.
pub open spec fn busy_event_of(v: u8) -> Option<BusyEvent> {
    if v == 0x1 { Some(BusyEvent::Change) }
    else if v == 0x2 { Some(BusyEvent::LoChange) }
    else { None }
}

impl BusyEvent {
    /// The value with code `v`, if there is one.
    pub fn from_code(v: u8) -> (r: Option<BusyEvent>)
        ensures
            r == busy_event_of(v),
    {
        if v == 0x1 { Some(BusyEvent::Change) }
        else if v == 0x2 { Some(BusyEvent::LoChange) }
        else { None }
    }

    /// The code of the value.
    pub open spec fn spec_code(self) -> u8 {
        match self {
            BusyEvent::Change => 0x1,
            BusyEvent::LoChange => 0x2,
        }
    }

    /// The code of the value.
    #[verifier::when_used_as_spec(spec_code)]
    pub fn code(self) -> (r: u8)
        ensures
            r == self.spec_code(),
    {
        match self {
            BusyEvent::Change => 0x1,
            BusyEvent::LoChange => 0x2,
        }
    }
}

/// Busy state of the device
#[derive(Clone, Copy, Debug, Default, Eq, Hash, Ord, PartialEq, PartialOrd)]
pub enum BusyState {
    /// The drive is not busy
    #[default]
    NotBusy,
    /// The drive is busy
    Busy,
}

/// The value of [`BusyState`] with code `v`, if there is one.
pub open spec fn busy_state_of(v: u8) -> Option<BusyState> {
    if v == 0x0 { Some(BusyState::NotBusy) }
    else if v == 0x1 { Some(BusyState::Busy) }
    else { None }
}

impl BusyState {
    /// The value with code `v`, if there is one.
    pub fn from_code(v: u8) -> (r: Option<BusyState>)
        ensures
            r == busy_state_of(v),
    {
        if v == 0x0 { Some(BusyState::NotBusy) }
        else if v == 0x1 { Some(BusyState::Busy) }
        else { None }
    }

    /// The code of the value.
    pub open spec fn spec_code(self) -> u8 {
        match self {
            BusyState::NotBusy => 0x0,
            BusyState::Busy => 0x1,
        }
    }

    /// The code of the value.
    #[verifier::when_used_as_spec(spec_code)]
    pub fn code(self) -> (r: u8)
        ensures
            r == self.spec_code(),
    {
        match self {
            BusyState::NotBusy => 0x0,
            BusyState::Busy => 0x1,
        }
    }
}


/// The time span of `ms` milliseconds, as `Duration::from_millis` makes it.
pub uninterp spec fn duration_of_millis(ms: u64) -> Duration;

/// `Duration::from_millis`: the span of `ms` milliseconds.
#[verifier::external_body]
fn duration_from_millis(ms: u64) -> (r: Duration)
    ensures
        r == duration_of_millis(ms),
{
    Duration::from_millis(ms)
}

/// The event code of a descriptor: the low four bits of its first byte.
pub open spec fn event_code(d: Seq<u8>) -> u8 {
    d[0] & 0x0F
}

/// Status of operational changes to the device
#[derive(Clone, Copy, Debug, Default, Eq, Hash, Ord, PartialEq, PartialOrd)]
pub struct OperationalStatus {
    /// Most recent operational change event on the device
    pub event: Option<OperationalEvent>,
    /// Persistent prevent state is active.
    ///
    /// Upon entering the Persistent Prevent state, the Drive shall disable any eject mechanisms, and all media after
    /// initial media spin up shall remain locked in the Drive until the Host issues an eject request, or the Persistent
    /// Prevent status is reset and the hardware eject mechanism again becomes available.
    pub persistent_prevent: bool,
}

/// Changes to power status
#[derive(Clone, Copy, Debug, Eq, Hash, Ord, PartialEq, PartialOrd)]
pub struct PowerStatus {
    /// Most recent power management event on the device
    pub event: Option<PowerEvent>,
    /// Current power state of the drive
    pub state: PowerState,
}

/// External requests such as a remote or a button
#[derive(Clone, Copy, Debug, Eq, Hash, Ord, PartialEq, PartialOrd)]
pub struct ExternalRequestStatus {
    /// Most recent external request event on the device
    pub event: Option<ExternalRequestEvent>,
    /// Device's ability to respond to the host
    pub state: ExternalRequestState,
    /// Operation requested or performed via an external request to the device
    pub request: Option<ExternalRequest>,
}

/// Media state: the tray and presence flags of the media class.
#[derive(Clone, Copy, Debug, Default, Eq, Hash, Ord, PartialEq, PartialOrd)]
pub struct MediaState {
    bits: u8,
}

impl MediaState {
    /// The raw bits of the state.
    pub closed spec fn spec_bits(&self) -> u8 {
        self.bits
    }

    /// The state with exactly the raw bits `bits`.
    pub closed spec fn spec_from_bits_retain(bits: u8) -> MediaState {
        MediaState { bits }
    }

    /// Two states with the same bits are the same state.
    pub proof fn lemma_bits_determine(a: MediaState, b: MediaState)
        ensures
            a.spec_bits() == b.spec_bits() ==> a == b,
            MediaState::spec_from_bits_retain(a.spec_bits()) == a,
    {
    }

    /// The raw bits of the state.
    #[verifier::when_used_as_spec(spec_bits)]
    pub fn bits(&self) -> (r: u8)
        ensures
            r == self.spec_bits(),
    {
        self.bits
    }

    /// The known flags among `bits`; other bits are dropped.
    pub fn from_bits_truncate(bits: u8) -> (r: MediaState)
        ensures
            r.spec_bits() == bits & 0x03,
    {
        MediaState { bits: bits & 0x03 }
    }

    /// The tray or door mechanism is in the open state.
    pub fn door_or_tray_open() -> (r: MediaState)
        ensures
            r.spec_bits() == 0x01,
    {
        MediaState { bits: 0x01 }
    }

    /// Media is present in the drive.
    pub fn media_present() -> (r: MediaState)
        ensures
            r.spec_bits() == 0x02,
    {
        MediaState { bits: 0x02 }
    }

    /// Whether all flags of `other` are set.
    pub fn contains(&self, other: MediaState) -> (r: bool)
        ensures
            r == (self.spec_bits() & other.spec_bits() == other.spec_bits()),
    {
        self.bits & other.bits == other.bits
    }
}

/// Media related changes
#[derive(Clone, Copy, Debug, Eq, Hash, Ord, PartialEq, PartialOrd)]
pub struct MediaStatus {
    /// Most recent media event on the device
    pub event: Option<MediaEvent>,
    /// Current media state of the device
    pub state: MediaState,
    /// The first slot of a multiple slot drive the media status
    /// notification applies to.
    /// Only applies to drives that support multiple slots.
    pub start_slot: u8,
    /// The last slot of a multiple slot drive the media status
    /// notification applies to.
    /// Only applies to drives that support
    pub end_slot: u8,
}

/// Requests for control by other hosts
#[derive(Clone, Copy, Debug, Eq, Hash, Ord, PartialEq, PartialOrd)]
pub struct MultiHostStatus {
    /// Most recent multiple host event on the device
    pub event: Option<MultiHostEvent>,
    /// The drive's ability to respond to the host
    pub state: MultiHostState,
    /// Priority of tasks relative to the other host
    pub priority: Option<MultiHostPriority>,
}

/// Used to notify the host of commands that are executing but require an
/// abnormally long time to complete.
#[derive(Clone, Copy, Debug, Eq, Hash, Ord, PartialEq, PartialOrd)]
pub struct BusyStatus {
    /// Most recent device busy event on the device
    pub event: Option<BusyEvent>,
    /// Current busy state of the device
    pub state: BusyState,
    /// Predicted amount of time remaining for the device to become not busy
    /// if the drive is currently busy.
    pub busy_time: Option<Duration>,
}

/// The operational change descriptor decoded: `None` when it is shorter
/// than four bytes or names an unknown change.
pub open spec fn spec_operational_status(d: Seq<u8>) -> Option<OperationalStatus> {
    if d.len() < 4 {
        None
    } else {
        let change = be16_at(d, 2);
        let prevent = d[1] & 0x80 != 0;
        if change == 0 {
            Some(OperationalStatus { event: None, persistent_prevent: prevent })
        } else {
            match operational_event_of(change) {
                Some(e) => Some(OperationalStatus { event: Some(e), persistent_prevent: prevent }),
                None => None,
            }
        }
    }
}

/// The power management descriptor decoded: `None` when it is shorter
/// than two bytes or holds an unknown event or state.
pub open spec fn spec_power_status(d: Seq<u8>) -> Option<PowerStatus> {
    if d.len() < 2 {
        None
    } else {
        let code = event_code(d);
        match power_state_of(d[1]) {
            None => None,
            Some(state) => if code == 0 {
                Some(PowerStatus { event: None, state })
            } else {
                match power_event_of(code) {
                    Some(e) => Some(PowerStatus { event: Some(e), state }),
                    None => None,
                }
            },
        }
    }
}

/// The external request descriptor decoded: `None` when it is shorter
/// than four bytes or holds an unknown event, state or request.
pub open spec fn spec_external_status(d: Seq<u8>) -> Option<ExternalRequestStatus> {
    if d.len() < 4 {
        None
    } else {
        let code = event_code(d);
        let request = be16_at(d, 2);
        let event = if code == 0 { Some(None) } else {
            match external_request_event_of(code) {
                Some(e) => Some(Some(e)),
                None => None,
            }
        };
        let req = if request == 0 { Some(None) } else {
            match external_request_of(request) {
                Some(q) => Some(Some(q)),
                None => None,
            }
        };
        match (event, external_request_state_of(d[1] & 0x0F), req) {
            (Some(event), Some(state), Some(request)) => Some(
                ExternalRequestStatus { event, state, request },
            ),
            _ => None,
        }
    }
}

/// The media descriptor decoded: `None` when it is shorter than four
/// bytes or names an unknown event.
pub open spec fn spec_media_status(d: Seq<u8>) -> Option<MediaStatus> {
    if d.len() < 4 {
        None
    } else {
        let code = event_code(d);
        let state = MediaState::spec_from_bits_retain(d[1] & 0x03);
        if code == 0 {
            Some(MediaStatus { event: None, state, start_slot: d[2], end_slot: d[3] })
        } else {
            match media_event_of(code) {
                Some(e) => Some(
                    MediaStatus { event: Some(e), state, start_slot: d[2], end_slot: d[3] },
                ),
                None => None,
            }
        }
    }
}

/// The multiple host descriptor decoded: `None` when it is shorter than
/// four bytes or holds an unknown event, state or priority.
pub open spec fn spec_multihost_status(d: Seq<u8>) -> Option<MultiHostStatus> {
    if d.len() < 4 {
        None
    } else {
        let code = event_code(d);
        let priority = be16_at(d, 2);
        let event = if code == 0 { Some(None) } else {
            match multi_host_event_of(code) {
                Some(e) => Some(Some(e)),
                None => None,
            }
        };
        let prio = if priority == 0 { Some(None) } else {
            match multi_host_priority_of(priority) {
                Some(p) => Some(Some(p)),
                None => None,
            }
        };
        match (event, multi_host_state_of(d[1] & 0x0F), prio) {
            (Some(event), Some(state), Some(priority)) => Some(
                MultiHostStatus { event, state, priority },
            ),
            _ => None,
        }
    }
}

/// The device busy descriptor decoded: `None` when it is shorter than
/// four bytes or holds an unknown event or state. The busy time, in
/// milliseconds, is present only while the drive is busy.
pub open spec fn spec_busy_status(d: Seq<u8>) -> Option<BusyStatus> {
    if d.len() < 4 {
        None
    } else {
        let code = event_code(d);
        let time = be16_at(d, 2);
        let event = if code == 0 { Some(None) } else {
            match busy_event_of(code) {
                Some(e) => Some(Some(e)),
                None => None,
            }
        };
        match (event, busy_state_of(d[1])) {
            (Some(event), Some(state)) => Some(
                BusyStatus {
                    event,
                    state,
                    busy_time: if state != BusyState::NotBusy {
                        Some(duration_of_millis(time as u64))
                    } else {
                        None
                    },
                },
            ),
            _ => None,
        }
    }
}

/// The message of a descriptor that is too short for its fields, named
/// by `label`: an empty one misses its event code already.
pub open spec fn short_descriptor_message(d: Seq<u8>, label: Seq<char>) -> Seq<char> {
    if d.len() == 0 {
        invalid_message("event code"@)
    } else {
        invalid_message(label)
    }
}

/// Why an operational change descriptor does not decode.
pub open spec fn operational_message(d: Seq<u8>) -> Seq<char> {
    if d.len() < 4 {
        short_descriptor_message(d, "operational change event descriptor"@)
    } else {
        no_discriminant_message("OperationalEvent"@, be16_at(d, 2) as nat)
    }
}

/// Why a power management descriptor does not decode: its length, then
/// its event, then its state.
pub open spec fn power_message(d: Seq<u8>) -> Seq<char> {
    if d.len() < 2 {
        short_descriptor_message(d, "power management event descriptor"@)
    } else if event_code(d) != 0 && power_event_of(event_code(d)) is None {
        no_discriminant_message("PowerEvent"@, event_code(d) as nat)
    } else {
        no_discriminant_message("PowerState"@, d[1] as nat)
    }
}

/// Why an external request descriptor does not decode: its length, then
/// its event, its state and its request.
pub open spec fn external_message(d: Seq<u8>) -> Seq<char> {
    if d.len() < 4 {
        short_descriptor_message(d, "external request event descriptor"@)
    } else if event_code(d) != 0 && external_request_event_of(event_code(d)) is None {
        no_discriminant_message("ExternalRequestEvent"@, event_code(d) as nat)
    } else if external_request_state_of(d[1] & 0x0F) is None {
        no_discriminant_message("ExternalRequestState"@, (d[1] & 0x0F) as nat)
    } else {
        no_discriminant_message("ExternalRequest"@, be16_at(d, 2) as nat)
    }
}

/// Why a media descriptor does not decode.
pub open spec fn media_message(d: Seq<u8>) -> Seq<char> {
    if d.len() < 4 {
        short_descriptor_message(d, "media event descriptor"@)
    } else {
        no_discriminant_message("MediaEvent"@, event_code(d) as nat)
    }
}

/// Why a multiple host descriptor does not decode: its length, then its
/// event, its state and its priority.
pub open spec fn multihost_message(d: Seq<u8>) -> Seq<char> {
    if d.len() < 4 {
        short_descriptor_message(d, "multiple host event descriptor"@)
    } else if event_code(d) != 0 && multi_host_event_of(event_code(d)) is None {
        no_discriminant_message("MultiHostEvent"@, event_code(d) as nat)
    } else if multi_host_state_of(d[1] & 0x0F) is None {
        no_discriminant_message("MultiHostState"@, (d[1] & 0x0F) as nat)
    } else {
        no_discriminant_message("MultiHostPriority"@, be16_at(d, 2) as nat)
    }
}

/// Why a device busy descriptor does not decode: its length, then its
/// event, then its state.
pub open spec fn busy_message(d: Seq<u8>) -> Seq<char> {
    if d.len() < 4 {
        short_descriptor_message(d, "device busy event descriptor"@)
    } else if event_code(d) != 0 && busy_event_of(event_code(d)) is None {
        no_discriminant_message("BusyEvent"@, event_code(d) as nat)
    } else {
        no_discriminant_message("BusyState"@, d[1] as nat)
    }
}

/// The error of a descriptor that is too short for its fields.
fn short_descriptor(d: &[u8], label: &str) -> (r: MmcStatusError)
    ensures
        status_invalid(r, short_descriptor_message(d@, label@)),
{
    if d.len() == 0 {
        invalid_response("event code")
    } else {
        invalid_response(label)
    }
}

/// The error of a code `v` that names no value of the enumeration `name`.
fn unknown_code(name: &str, v: u64) -> (r: MmcStatusError)
    ensures
        status_invalid(r, no_discriminant_message(name@, v as nat)),
{
    MmcStatusError::InvalidResponse(no_discriminant_text(name, v))
}

/// Get operational change status from a response.
pub fn operational_status_from(data: &[u8]) -> (r: Result<OperationalStatus, MmcStatusError>)
    ensures
        status_result(
            r,
            EventClass::spec_from_bits_retain(0x02),
            data@,
            spec_operational_status(event_descriptor(data@)),
            operational_message(event_descriptor(data@)),
        ),
{
    let expected = EventClass::operational_change();
    proof {
        EventClass::lemma_bits_determine(expected, EventClass::spec_from_bits_retain(0x02));
    }
    if let Err(e) = parse_header(expected, data) {
        return Err(e);
    }
    let d = descriptor_of(data);
    if d.len() < 4 {
        return Err(short_descriptor(d, "operational change event descriptor"));
    }
    let persistent_prevent = d[1] & 0x80 != 0;
    let change = read_u16(&d[2..4]);
    assert(be16_at(d@.subrange(2, 4), 0) == be16_at(d@, 2));
    let event = if change != 0 {
        match OperationalEvent::from_code(change) {
            Some(e) => Some(e),
            None => return Err(unknown_code("OperationalEvent", change as u64)),
        }
    } else {
        None
    };
    Ok(OperationalStatus { event, persistent_prevent })
}

/// Get power management status from a response.
pub fn power_status_from(data: &[u8]) -> (r: Result<PowerStatus, MmcStatusError>)
    ensures
        status_result(
            r,
            EventClass::spec_from_bits_retain(0x04),
            data@,
            spec_power_status(event_descriptor(data@)),
            power_message(event_descriptor(data@)),
        ),
{
    let expected = EventClass::power_management();
    proof {
        EventClass::lemma_bits_determine(expected, EventClass::spec_from_bits_retain(0x04));
    }
    if let Err(e) = parse_header(expected, data) {
        return Err(e);
    }
    let d = descriptor_of(data);
    if d.len() < 2 {
        return Err(short_descriptor(d, "power management event descriptor"));
    }
    let event_code = d[0] & 0x0F;
    let event = if event_code != 0 {
        match PowerEvent::from_code(event_code) {
            Some(e) => Some(e),
            None => return Err(unknown_code("PowerEvent", event_code as u64)),
        }
    } else {
        None
    };
    let state = match PowerState::from_code(d[1]) {
        Some(s) => s,
        None => return Err(unknown_code("PowerState", d[1] as u64)),
    };
    Ok(PowerStatus { event, state })
}

/// Get external request status from a response.
pub fn external_status_from(data: &[u8]) -> (r: Result<ExternalRequestStatus, MmcStatusError>)
    ensures
        status_result(
            r,
            EventClass::spec_from_bits_retain(0x08),
            data@,
            spec_external_status(event_descriptor(data@)),
            external_message(event_descriptor(data@)),
        ),
{
    let expected = EventClass::external_request();
    proof {
        EventClass::lemma_bits_determine(expected, EventClass::spec_from_bits_retain(0x08));
    }
    if let Err(e) = parse_header(expected, data) {
        return Err(e);
    }
    let d = descriptor_of(data);
    if d.len() < 4 {
        return Err(short_descriptor(d, "external request event descriptor"));
    }
    let event_code = d[0] & 0x0F;
    let status = d[1] & 0x0F;
    let request = read_u16(&d[2..4]);
    assert(be16_at(d@.subrange(2, 4), 0) == be16_at(d@, 2));
    let event = if event_code != 0 {
        match ExternalRequestEvent::from_code(event_code) {
            Some(e) => Some(e),
            None => return Err(unknown_code("ExternalRequestEvent", event_code as u64)),
        }
    } else {
        None
    };
    let state = match ExternalRequestState::from_code(status) {
        Some(s) => s,
        None => return Err(unknown_code("ExternalRequestState", status as u64)),
    };
    let request = if request != 0 {
        match ExternalRequest::from_code(request) {
            Some(q) => Some(q),
            None => return Err(unknown_code("ExternalRequest", request as u64)),
        }
    } else {
        None
    };
    Ok(ExternalRequestStatus { event, state, request })
}

/// Get media status from a response.
pub fn media_status_from(data: &[u8]) -> (r: Result<MediaStatus, MmcStatusError>)
    ensures
        status_result(
            r,
            EventClass::spec_from_bits_retain(0x10),
            data@,
            spec_media_status(event_descriptor(data@)),
            media_message(event_descriptor(data@)),
        ),
{
    let expected = EventClass::media();
    proof {
        EventClass::lemma_bits_determine(expected, EventClass::spec_from_bits_retain(0x10));
    }
    if let Err(e) = parse_header(expected, data) {
        return Err(e);
    }
    let d = descriptor_of(data);
    if d.len() < 4 {
        return Err(short_descriptor(d, "media event descriptor"));
    }
    let event_code = d[0] & 0x0F;
    let event = if event_code != 0 {
        match MediaEvent::from_code(event_code) {
            Some(e) => Some(e),
            None => return Err(unknown_code("MediaEvent", event_code as u64)),
        }
    } else {
        None
    };
    let state = MediaState::from_bits_truncate(d[1]);
    proof {
        MediaState::lemma_bits_determine(state, MediaState::spec_from_bits_retain(d@[1] & 0x03));
    }
    Ok(MediaStatus { event, state, start_slot: d[2], end_slot: d[3] })
}

/// Whether the tray is open, from a media status response. A drive
/// without a tray reports it closed.
pub fn tray_open_from(data: &[u8]) -> (r: Result<bool, MmcStatusError>)
    ensures
        status_result(
            r,
            EventClass::spec_from_bits_retain(0x10),
            data@,
            match spec_media_status(event_descriptor(data@)) {
                Some(s) => Some(s.state.spec_bits() & 0x01 == 0x01),
                None => None,
            },
            media_message(event_descriptor(data@)),
        ),
{
    let status = match media_status_from(data) {
        Ok(s) => s,
        Err(e) => return Err(e),
    };
    Ok(status.state.contains(MediaState::door_or_tray_open()))
}

/// Two status errors say the same: the same variant, with the same
/// message or class.
pub open spec fn same_status_error(a: MmcStatusError, b: MmcStatusError) -> bool {
    match (a, b) {
        (MmcStatusError::InvalidResponse(x), MmcStatusError::InvalidResponse(y)) => x@ == y@,
        _ => a == b,
    }
}

/// The tray query is the media status query seen through the tray flag:
/// on the same response, where the media status is `Ok(s)` the tray query
/// is `Ok` of whether `s.state` holds the open flag, and where the media
/// status is an error the tray query is the same error.
pub proof fn lemma_tray_open_follows_media_status(
    data: Seq<u8>,
    media: Result<MediaStatus, MmcStatusError>,
    tray: Result<bool, MmcStatusError>,
)
    requires
        status_result(
            media,
            EventClass::spec_from_bits_retain(0x10),
            data,
            spec_media_status(event_descriptor(data)),
            media_message(event_descriptor(data)),
        ),
        status_result(
            tray,
            EventClass::spec_from_bits_retain(0x10),
            data,
            match spec_media_status(event_descriptor(data)) {
                Some(s) => Some(s.state.spec_bits() & 0x01 == 0x01),
                None => None,
            },
            media_message(event_descriptor(data)),
        ),
    ensures
        media matches Ok(s) ==> tray == Ok::<bool, MmcStatusError>(
            s.state.spec_bits() & MediaState::spec_from_bits_retain(0x01).spec_bits()
                == MediaState::spec_from_bits_retain(0x01).spec_bits(),
        ),
        media matches Err(e) ==> (tray matches Err(f) && same_status_error(e, f)),
{
    MediaState::lemma_bits_determine(
        MediaState::spec_from_bits_retain(0x01),
        MediaState::spec_from_bits_retain(0x01),
    );
}

/// Get multiple host event status from a response.
pub fn multihost_status_from(data: &[u8]) -> (r: Result<MultiHostStatus, MmcStatusError>)
    ensures
        status_result(
            r,
            EventClass::spec_from_bits_retain(0x20),
            data@,
            spec_multihost_status(event_descriptor(data@)),
            multihost_message(event_descriptor(data@)),
        ),
{
    let expected = EventClass::multi_host();
    proof {
        EventClass::lemma_bits_determine(expected, EventClass::spec_from_bits_retain(0x20));
    }
    if let Err(e) = parse_header(expected, data) {
        return Err(e);
    }
    let d = descriptor_of(data);
    if d.len() < 4 {
        return Err(short_descriptor(d, "multiple host event descriptor"));
    }
    let event_code = d[0] & 0x0F;
    let status = d[1] & 0x0F;
    let priority = read_u16(&d[2..4]);
    assert(be16_at(d@.subrange(2, 4), 0) == be16_at(d@, 2));
    let event = if event_code != 0 {
        match MultiHostEvent::from_code(event_code) {
            Some(e) => Some(e),
            None => return Err(unknown_code("MultiHostEvent", event_code as u64)),
        }
    } else {
        None
    };
    let state = match MultiHostState::from_code(status) {
        Some(s) => s,
        None => return Err(unknown_code("MultiHostState", status as u64)),
    };
    let priority = if priority != 0 {
        match MultiHostPriority::from_code(priority) {
            Some(p) => Some(p),
            None => return Err(unknown_code("MultiHostPriority", priority as u64)),
        }
    } else {
        None
    };
    Ok(MultiHostStatus { event, state, priority })
}

/// Get busy status from a response.
pub fn busy_status_from(data: &[u8]) -> (r: Result<BusyStatus, MmcStatusError>)
    ensures
        status_result(
            r,
            EventClass::spec_from_bits_retain(0x40),
            data@,
            spec_busy_status(event_descriptor(data@)),
            busy_message(event_descriptor(data@)),
        ),
{
    let expected = EventClass::device_busy();
    proof {
        EventClass::lemma_bits_determine(expected, EventClass::spec_from_bits_retain(0x40));
    }
    if let Err(e) = parse_header(expected, data) {
        return Err(e);
    }
    let d = descriptor_of(data);
    if d.len() < 4 {
        return Err(short_descriptor(d, "device busy event descriptor"));
    }
    let event_code = d[0] & 0x0F;
    let time = read_u16(&d[2..4]);
    assert(be16_at(d@.subrange(2, 4), 0) == be16_at(d@, 2));
    let event = if event_code != 0 {
        match BusyEvent::from_code(event_code) {
            Some(e) => Some(e),
            None => return Err(unknown_code("BusyEvent", event_code as u64)),
        }
    } else {
        None
    };
    let state = match BusyState::from_code(d[1]) {
        Some(s) => s,
        None => return Err(unknown_code("BusyState", d[1] as u64)),
    };
    let busy_time = match state {
        BusyState::NotBusy => None,
        _ => Some(duration_from_millis(time as u64)),
    };
    Ok(BusyStatus { event, state, busy_time })
}

/// Every code that names a value of [`OperationalEvent`] is that value's code, and
/// every value's code names it.
pub proof fn lemma_operational_event_code_roundtrip(v: u16, k: OperationalEvent)
    ensures
        operational_event_of(v) matches Some(x) ==> x.spec_code() == v,
        operational_event_of(k.spec_code()) == Some(k),
{
}

/// Every code that names a value of [`PowerEvent`] is that value's code, and
/// every value's code names it.
pub proof fn lemma_power_event_code_roundtrip(v: u8, k: PowerEvent)
    ensures
        power_event_of(v) matches Some(x) ==> x.spec_code() == v,
        power_event_of(k.spec_code()) == Some(k),
{
}

/// Every code that names a value of [`PowerState`] is that value's code, and
/// every value's code names it.
pub proof fn lemma_power_state_code_roundtrip(v: u8, k: PowerState)
    ensures
        power_state_of(v) matches Some(x) ==> x.spec_code() == v,
        power_state_of(k.spec_code()) == Some(k),
{
}

/// Every code that names a value of [`ExternalRequestEvent`] is that value's code, and
/// every value's code names it.
pub proof fn lemma_external_request_event_code_roundtrip(v: u8, k: ExternalRequestEvent)
    ensures
        external_request_event_of(v) matches Some(x) ==> x.spec_code() == v,
        external_request_event_of(k.spec_code()) == Some(k),
{
}

/// Every code that names a value of [`ExternalRequestState`] is that value's code, and
/// every value's code names it.
pub proof fn lemma_external_request_state_code_roundtrip(v: u8, k: ExternalRequestState)
    ensures
        external_request_state_of(v) matches Some(x) ==> x.spec_code() == v,
        external_request_state_of(k.spec_code()) == Some(k),
{
}

/// Every code that names a value of [`ExternalRequest`] is that value's code, and
/// every value's code names it.
pub proof fn lemma_external_request_code_roundtrip(v: u16, k: ExternalRequest)
    ensures
        external_request_of(v) matches Some(x) ==> x.spec_code() == v || (x == ExternalRequest::VendorUnique && 0xF000 <= v),
        external_request_of(k.spec_code()) == Some(k),
{
}

/// Every code that names a value of [`MediaEvent`] is that value's code, and
/// every value's code names it.
pub proof fn lemma_media_event_code_roundtrip(v: u8, k: MediaEvent)
    ensures
        media_event_of(v) matches Some(x) ==> x.spec_code() == v,
        media_event_of(k.spec_code()) == Some(k),
{
}

/// Every code that names a value of [`MultiHostEvent`] is that value's code, and
/// every value's code names it.
pub proof fn lemma_multi_host_event_code_roundtrip(v: u8, k: MultiHostEvent)
    ensures
        multi_host_event_of(v) matches Some(x) ==> x.spec_code() == v,
        multi_host_event_of(k.spec_code()) == Some(k),
{
}

/// Every code that names a value of [`MultiHostState`] is that value's code, and
/// every value's code names it.
pub proof fn lemma_multi_host_state_code_roundtrip(v: u8, k: MultiHostState)
    ensures
        multi_host_state_of(v) matches Some(x) ==> x.spec_code() == v,
        multi_host_state_of(k.spec_code()) == Some(k),
{
}

/// Every code that names a value of [`MultiHostPriority`] is that value's code, and
/// every value's code names it.
pub proof fn lemma_multi_host_priority_code_roundtrip(v: u16, k: MultiHostPriority)
    ensures
        multi_host_priority_of(v) matches Some(x) ==> x.spec_code() == v,
        multi_host_priority_of(k.spec_code()) == Some(k),
{
}

/// Every code that names a value of [`BusyEvent`] is that value's code, and
/// every value's code names it.
pub proof fn lemma_busy_event_code_roundtrip(v: u8, k: BusyEvent)
    ensures
        busy_event_of(v) matches Some(x) ==> x.spec_code() == v,
        busy_event_of(k.spec_code()) == Some(k),
{
}

/// Every code that names a value of [`BusyState`] is that value's code, and
/// every value's code names it.
pub proof fn lemma_busy_state_code_roundtrip(v: u8, k: BusyState)
    ensures
        busy_state_of(v) matches Some(x) ==> x.spec_code() == v,
        busy_state_of(k.spec_code()) == Some(k),
{
}

/// An operational change status is read from the response: the persistent
/// prevent flag is the top bit of byte 5, and the change is the big-endian
/// code in bytes 6 and 7, none for 0.
pub proof fn lemma_operational_status_fields(
    data: Seq<u8>,
    r: Result<OperationalStatus, MmcStatusError>,
    msg: Seq<char>,
)
    requires
        status_result(
            r,
            EventClass::spec_from_bits_retain(0x02),
            data,
            spec_operational_status(event_descriptor(data)),
            msg,
        ),
    ensures
        r matches Ok(s) ==> {
            &&& s.persistent_prevent == (data[5] & 0x80 != 0)
            &&& s.event is None <==> be16_at(data, 6) == 0
            &&& s.event matches Some(e) ==> e.spec_code() == be16_at(data, 6)
        },
{
    if r is Ok {
        assert(event_descriptor(data)[1] == data[5]);
        assert(be16_at(event_descriptor(data), 2) == be16_at(data, 6));
    }
}

/// A power status is read from the response: the event from the low four
/// bits of byte 4 (none for 0) and the power state from byte 5.
pub proof fn lemma_power_status_fields(data: Seq<u8>, r: Result<PowerStatus, MmcStatusError>, msg: Seq<char>)
    requires
        status_result(
            r,
            EventClass::spec_from_bits_retain(0x04),
            data,
            spec_power_status(event_descriptor(data)),
            msg,
        ),
    ensures
        r matches Ok(s) ==> {
            &&& s.state.spec_code() == data[5]
            &&& s.event is None <==> data[4] & 0x0F == 0
            &&& s.event matches Some(e) ==> e.spec_code() == data[4] & 0x0F
        },
{
    if r is Ok {
        assert(event_descriptor(data)[0] == data[4]);
        assert(event_descriptor(data)[1] == data[5]);
    }
}

/// An external request status is read from the response: the event from
/// the low four bits of byte 4 (none for 0), the state from the low four
/// bits of byte 5, and the request from the big-endian code in bytes 6 and
/// 7 (none for 0; any code from `0xF000` on is vendor unique).
pub proof fn lemma_external_status_fields(
    data: Seq<u8>,
    r: Result<ExternalRequestStatus, MmcStatusError>,
    msg: Seq<char>,
)
    requires
        status_result(
            r,
            EventClass::spec_from_bits_retain(0x08),
            data,
            spec_external_status(event_descriptor(data)),
            msg,
        ),
    ensures
        r matches Ok(s) ==> {
            &&& s.state.spec_code() == data[5] & 0x0F
            &&& s.event is None <==> data[4] & 0x0F == 0
            &&& s.event matches Some(e) ==> e.spec_code() == data[4] & 0x0F
            &&& s.request is None <==> be16_at(data, 6) == 0
            &&& s.request matches Some(q) ==> (q.spec_code() == be16_at(data, 6) || (q
                == ExternalRequest::VendorUnique && 0xF000 <= be16_at(data, 6)))
        },
{
    if r is Ok {
        assert(event_descriptor(data)[0] == data[4]);
        assert(event_descriptor(data)[1] == data[5]);
        assert(be16_at(event_descriptor(data), 2) == be16_at(data, 6));
    }
}

/// A media status is read from the response: the event from the low four
/// bits of byte 4 (none for 0), the state from the low two bits of byte 5,
/// the start slot from byte 6 and the end slot from byte 7.
pub proof fn lemma_media_status_fields(data: Seq<u8>, r: Result<MediaStatus, MmcStatusError>, msg: Seq<char>)
    requires
        status_result(
            r,
            EventClass::spec_from_bits_retain(0x10),
            data,
            spec_media_status(event_descriptor(data)),
            msg,
        ),
    ensures
        r matches Ok(s) ==> {
            &&& s.state.spec_bits() == data[5] & 0x03
            &&& s.start_slot == data[6]
            &&& s.end_slot == data[7]
            &&& s.event is None <==> data[4] & 0x0F == 0
            &&& s.event matches Some(e) ==> e.spec_code() == data[4] & 0x0F
        },
{
    if r is Ok {
        let d = event_descriptor(data);
        assert(d[0] == data[4] && d[1] == data[5] && d[2] == data[6] && d[3] == data[7]);
        MediaState::lemma_bits_determine(
            MediaState::spec_from_bits_retain(d[1] & 0x03),
            MediaState::spec_from_bits_retain(d[1] & 0x03),
        );
    }
}

/// A multiple host status is read from the response: the event from the
/// low four bits of byte 4 (none for 0), the state from the low four bits
/// of byte 5, and the priority from the big-endian code in bytes 6 and 7
/// (none for 0).
pub proof fn lemma_multihost_status_fields(
    data: Seq<u8>,
    r: Result<MultiHostStatus, MmcStatusError>,
    msg: Seq<char>,
)
    requires
        status_result(
            r,
            EventClass::spec_from_bits_retain(0x20),
            data,
            spec_multihost_status(event_descriptor(data)),
            msg,
        ),
    ensures
        r matches Ok(s) ==> {
            &&& s.state.spec_code() == data[5] & 0x0F
            &&& s.event is None <==> data[4] & 0x0F == 0
            &&& s.event matches Some(e) ==> e.spec_code() == data[4] & 0x0F
            &&& s.priority is None <==> be16_at(data, 6) == 0
            &&& s.priority matches Some(p) ==> p.spec_code() == be16_at(data, 6)
        },
{
    if r is Ok {
        assert(event_descriptor(data)[0] == data[4]);
        assert(event_descriptor(data)[1] == data[5]);
        assert(be16_at(event_descriptor(data), 2) == be16_at(data, 6));
    }
}

/// A device busy status is read from the response: the event from the low
/// four bits of byte 4 (none for 0), the state from byte 5, and, while the
/// drive is busy, the time in milliseconds from the big-endian bytes 6 and
/// 7.
pub proof fn lemma_busy_status_fields(data: Seq<u8>, r: Result<BusyStatus, MmcStatusError>, msg: Seq<char>)
    requires
        status_result(
            r,
            EventClass::spec_from_bits_retain(0x40),
            data,
            spec_busy_status(event_descriptor(data)),
            msg,
        ),
    ensures
        r matches Ok(s) ==> {
            &&& s.state.spec_code() == data[5]
            &&& s.event is None <==> data[4] & 0x0F == 0
            &&& s.event matches Some(e) ==> e.spec_code() == data[4] & 0x0F
            &&& s.busy_time == if s.state == BusyState::NotBusy {
                None
            } else {
                Some(duration_of_millis(be16_at(data, 6) as u64))
            }
        },
{
    if r is Ok {
        assert(event_descriptor(data)[0] == data[4]);
        assert(event_descriptor(data)[1] == data[5]);
        assert(be16_at(event_descriptor(data), 2) == be16_at(data, 6));
    }
}

} // verus!
