//! Routines related to CD/DVD drives: capability sets, hardware
//! identifiers and the errors of drive operations.

use vstd::prelude::*;

use crate::text::{c_field_bytes, c_field_text, trim_end_chars, utf8_lossy_decoded};
use crate::open::{null_reason, null_reason_text, OpenAttempt};

verus! {

/// The flags among `known` that `bits` has, in order.
pub open spec fn contained_flags(bits: u32, known: Seq<u32>) -> Seq<u32>
    decreases known.len(),
{
    if known.len() == 0 {
        Seq::empty()
    } else {
        let rest = contained_flags(bits, known.drop_last());
        if bits & known.last() != 0 {
            rest.push(known.last())
        } else {
            rest
        }
    }
}

/// The union of the flags in `flags`.
pub open spec fn union_of(flags: Seq<u32>) -> u32
    decreases flags.len(),
{
    if flags.len() == 0 {
        0
    } else {
        union_of(flags.drop_last()) | flags.last()
    }
}

/// `x` has exactly one bit set: it is a power of two.
pub open spec fn single_bit(x: u32) -> bool {
    ||| x == 0x1u32
    ||| x == 0x2u32
    ||| x == 0x4u32
    ||| x == 0x8u32
    ||| x == 0x10u32
    ||| x == 0x20u32
    ||| x == 0x40u32
    ||| x == 0x80u32
    ||| x == 0x100u32
    ||| x == 0x200u32
    ||| x == 0x400u32
    ||| x == 0x800u32
    ||| x == 0x1000u32
    ||| x == 0x2000u32
    ||| x == 0x4000u32
    ||| x == 0x8000u32
    ||| x == 0x10000u32
    ||| x == 0x20000u32
    ||| x == 0x40000u32
    ||| x == 0x80000u32
    ||| x == 0x100000u32
    ||| x == 0x200000u32
    ||| x == 0x400000u32
    ||| x == 0x800000u32
    ||| x == 0x1000000u32
    ||| x == 0x2000000u32
    ||| x == 0x4000000u32
    ||| x == 0x8000000u32
    ||| x == 0x10000000u32
    ||| x == 0x20000000u32
    ||| x == 0x40000000u32
    ||| x == 0x80000000u32
}

/// The union of the first `k + 1` flags adds flag `k` to that of the
/// first `k`.
pub proof fn lemma_union_of_take(flags: Seq<u32>, k: int)
    requires
        0 <= k < flags.len(),
    ensures
        union_of(flags.take(k + 1)) == union_of(flags.take(k)) | flags[k],
{
    assert(flags.take(k + 1).drop_last() =~= flags.take(k));
}

/// A set is the union of the flags it contains: the flags among `known`
/// (each a single bit) that `bits` has make up `bits` restricted to the
/// union of `known`.
pub proof fn lemma_contained_flags_union(bits: u32, known: Seq<u32>)
    requires
        forall|i: int| 0 <= i < known.len() ==> single_bit(#[trigger] known[i]),
    ensures
        union_of(contained_flags(bits, known)) == bits & union_of(known),
    decreases known.len(),
{
    if known.len() == 0 {
        assert(bits & 0 == 0) by (bit_vector);
    } else {
        let rest = known.drop_last();
        let x = known.last();
        let a = union_of(rest);
        lemma_contained_flags_union(bits, rest);
        assert(single_bit(known[known.len() - 1]));
        if bits & x != 0 {
            assert(contained_flags(bits, known) == contained_flags(bits, rest).push(x));
            assert(contained_flags(bits, known).drop_last() =~= contained_flags(bits, rest));
            assert((bits & a) | x == bits & (a | x)) by (bit_vector)
                requires
                    single_bit(x),
                    bits & x != 0,
            ;
        } else {
            assert(bits & a == bits & (a | x)) by (bit_vector)
                requires
                    bits & x == 0,
            ;
        }
    }
}

/// could not find any drives
#[non_exhaustive]
#[derive(Clone, Copy, Debug, PartialEq, Eq)]
pub struct DriveNotFoundError;

/// could not perform operation on the drive
#[non_exhaustive]
#[derive(Clone, Copy, Debug, PartialEq, Eq)]
pub struct DriveOperationError;

/// could not open drive at `{path}`
#[derive(Clone, Debug, PartialEq, Eq)]
pub struct DriveOpenError {
    path: Vec<u8>,
    reason: String,
}

impl DriveOpenError {
    /// The path of the drive, as the bytes of its platform encoding.
    pub closed spec fn spec_path(&self) -> Seq<u8> {
        self.path@
    }

    /// Why the drive could not be opened.
    pub closed spec fn spec_reason(&self) -> Seq<char> {
        self.reason@
    }

    /// The error for the drive at `path`, for the given reason.
    pub fn new(path: Vec<u8>, reason: String) -> (r: DriveOpenError)
        ensures
            r.spec_path() == path@,
            r.spec_reason() == reason@,
    {
        DriveOpenError { path, reason }
    }

    /// Returns the system path of the drive.
    pub fn path(&self) -> (r: &[u8])
        ensures
            r@ == self.spec_path(),
    {
        self.path.as_slice()
    }

    /// Why the drive could not be opened.
    pub fn reason(&self) -> (r: &str)
        ensures
            r@ == self.spec_reason(),
    {
        self.reason.as_str()
    }
}

/// What opening the drive at `path` with the C function `call` comes to.
/// Whatever the attempt came to, an error holds `path`.
pub fn drive_open_result<H>(path: Vec<u8>, call: &str, attempt: OpenAttempt<H>) -> (r: Result<H, DriveOpenError>)
    ensures
        r matches Err(e) ==> e.spec_path() == path@,
        match attempt {
            OpenAttempt::Refused(reason) => r matches Err(e) && e.spec_reason() == reason@,
            OpenAttempt::Opened(h) => r matches Ok(x) && x == h,
            OpenAttempt::Failed => r matches Err(e) && e.spec_reason() == null_reason(call@),
        },
{
    match attempt {
        OpenAttempt::Refused(reason) => Err(DriveOpenError::new(path, reason)),
        OpenAttempt::Opened(h) => Ok(h),
        OpenAttempt::Failed => Err(DriveOpenError::new(path, null_reason_text(call))),
    }
}

/// Hardware identifiers such as model, vendor and revision.
#[derive(Clone, Debug, PartialEq, Eq)]
pub struct HardwareIdentifiers {
    pub model: String,
    pub vendor: String,
    pub revision: String,
}

/// The identifier text of a NUL-terminated C field.
pub open spec fn hardware_field(bytes: Seq<u8>) -> Seq<char> {
    trim_end_chars(utf8_lossy_decoded(c_field_bytes(bytes)))
}

/// The hardware identifiers from the NUL-terminated fields that the drive
/// reported, each decoded leniently without trailing white space; `ok`
/// tells whether the drive answered at all.
pub fn hardware_identifiers_from(ok: bool, model: &[u8], vendor: &[u8], revision: &[u8]) -> (r: Result<HardwareIdentifiers, DriveOperationError>)
    ensures
        !ok ==> r == Err::<HardwareIdentifiers, DriveOperationError>(DriveOperationError),
        ok ==> (match r {
            Ok(ids) => {
                &&& ids.model@ == hardware_field(model@)
                &&& ids.vendor@ == hardware_field(vendor@)
                &&& ids.revision@ == hardware_field(revision@)
            },
            Err(_) => false,
        }),
{
    if !ok {
        return Err(DriveOperationError);
    }
    Ok(
        HardwareIdentifiers {
            model: c_field_text(model),
            vendor: c_field_text(vendor),
            revision: c_field_text(revision),
        },
    )
}

/// Drive capabilities.
#[derive(Clone, Copy, Debug)]
pub struct DriveCapabilities {
    pub read: ReadCapabilities,
    pub write: WriteCapabilities,
    pub misc: MiscCapabilities,
}

/// The capabilities that the drive reported as raw read, write and misc
/// bits; any bit that names no capability makes it an error.
pub fn capabilities_from(read: u32, write: u32, misc: u32) -> (r: Result<DriveCapabilities, DriveOperationError>)
    ensures
        r is Ok <==> (read & !ReadCapabilities::spec_all_bits() == 0 && write & !WriteCapabilities::spec_all_bits() == 0
            && misc & !MiscCapabilities::spec_all_bits() == 0),
        r matches Ok(c) ==> c.read.spec_bits() == read && c.write.spec_bits() == write && c.misc.spec_bits() == misc,
{
    let read = match ReadCapabilities::from_bits(read) {
        Some(r) => r,
        None => return Err(DriveOperationError),
    };
    let write = match WriteCapabilities::from_bits(write) {
        Some(w) => w,
        None => return Err(DriveOperationError),
    };
    let misc = match MiscCapabilities::from_bits(misc) {
        Some(m) => m,
        None => return Err(DriveOperationError),
    };
    Ok(DriveCapabilities { read, write, misc })
}

/// Miscellaneous capabilities of the drive.
#[derive(Clone, Copy, Debug, Default, PartialEq, Eq, PartialOrd, Ord, Hash)]
pub struct MiscCapabilities {
    bits: u32,
}

/// The flags of [`MiscCapabilities`], one bit each, in declaration order.
pub open spec fn misc_capabilities_known() -> Seq<u32> {
    seq![0x1u32, 0x2u32, 0x4u32, 0x8u32, 0x10u32, 0x20u32, 0x80u32, 0x100u32]
}

impl MiscCapabilities {
    /// A set of known flags is the union of the flags that it contains,
    /// which [`Self::iter_flags`] lists.
    pub proof fn lemma_flags_make_up_set(c: MiscCapabilities)
        requires
            c.spec_bits() & !Self::spec_all_bits() == 0,
        ensures
            union_of(contained_flags(c.spec_bits(), misc_capabilities_known())) == c.spec_bits(),
    {
        let known = misc_capabilities_known();
        assert(known.take(0) =~= Seq::<u32>::empty());
        lemma_union_of_take(known, 0);
        lemma_union_of_take(known, 1);
        lemma_union_of_take(known, 2);
        lemma_union_of_take(known, 3);
        lemma_union_of_take(known, 4);
        lemma_union_of_take(known, 5);
        lemma_union_of_take(known, 6);
        lemma_union_of_take(known, 7);
        assert(known.take(8) =~= known);
        assert(((((((((0u32 | 0x1u32) | 0x2u32) | 0x4u32) | 0x8u32) | 0x10u32) | 0x20u32) | 0x80u32) | 0x100u32) == 0x1BFu32) by (bit_vector);
        lemma_contained_flags_union(c.spec_bits(), known);
        let b = c.spec_bits();
        assert(b & 0x1BFu32 == b) by (bit_vector)
            requires
                b & !0x1BFu32 == 0,
        ;
    }

    /// The raw bits of the set.
    pub closed spec fn spec_bits(&self) -> u32 {
        self.bits
    }

    /// The raw bits of the set.
    #[verifier::when_used_as_spec(spec_bits)]
    pub fn bits(&self) -> (r: u32)
        ensures
            r == self.spec_bits(),
    {
        self.bits
    }

    /// Two sets with the same bits are the same set.
    pub proof fn lemma_bits_determine(a: MiscCapabilities, b: MiscCapabilities)
        ensures
            a.spec_bits() == b.spec_bits() ==> a == b,
    {
    }

    /// The bits that name a flag.
    pub open spec fn spec_all_bits() -> u32 {
        0x1BF
    }

    /// The set of the flags in `bits`, if all bits name a flag.
    pub fn from_bits(bits: u32) -> (r: Option<MiscCapabilities>)
        ensures
            r is Some <==> bits & !Self::spec_all_bits() == 0,
            r matches Some(c) ==> c.spec_bits() == bits,
    {
        if bits & !0x1BFu32 == 0 {
            Some(MiscCapabilities { bits })
        } else {
            None
        }
    }

    /// The set of the known flags among `bits`; other bits are dropped.
    pub fn from_bits_truncate(bits: u32) -> (r: MiscCapabilities)
        ensures
            r.spec_bits() == bits & Self::spec_all_bits(),
    {
        MiscCapabilities { bits: bits & 0x1BF }
    }

    /// Whether all flags of `other` are in the set.
    pub fn contains(&self, other: MiscCapabilities) -> (r: bool)
        ensures
            r == (self.spec_bits() & other.spec_bits() == other.spec_bits()),
    {
        self.bits & other.bits == other.bits
    }

    /// Whether the set is empty.
    pub fn is_empty(&self) -> (r: bool)
        ensures
            r == (self.spec_bits() == 0),
    {
        self.bits == 0
    }

    /// The flags of the set, each alone, in declaration order.
    pub fn iter_flags(&self) -> (r: Vec<MiscCapabilities>)
        ensures
            r@.map_values(|f: MiscCapabilities| f.spec_bits()) == contained_flags(self.spec_bits(), misc_capabilities_known()),
    {
        let known: [u32; 8] = [0x1u32, 0x2u32, 0x4u32, 0x8u32, 0x10u32, 0x20u32, 0x80u32, 0x100u32];
        let ghost kseq = misc_capabilities_known();
        assert(known@ =~= kseq);
        let mut r: Vec<MiscCapabilities> = Vec::new();
        let mut i: usize = 0;
        while i < 8
            invariant
                i <= 8,
                known@ == kseq,
                kseq.len() == 8,
                r@.map_values(|f: MiscCapabilities| f.spec_bits()) == contained_flags(self.spec_bits(), kseq.take(i as int)),
            decreases 8 - i,
        {
            let b = known[i];
            let ghost before = r@;
            proof {
                assert(kseq.take(i + 1).drop_last() =~= kseq.take(i as int));
                assert(kseq.take(i + 1).last() == b);
            }
            if self.bits & b != 0 {
                r.push(MiscCapabilities { bits: b });
                assert(r@.map_values(|f: MiscCapabilities| f.spec_bits()) =~= before.map_values(|f: MiscCapabilities| f.spec_bits()).push(b));
            }
            i = i + 1;
        }
        assert(kseq.take(8) =~= kseq);
        r
    }

    /// The display name of the single flag with bits `bits`, or "Unknown".
    pub open spec fn spec_name_of(bits: u32) -> &'static str {
        if bits == 0x1 {
            "Close Tray"
        } else if bits == 0x2 {
            "Eject"
        } else if bits == 0x4 {
            "Lock"
        } else if bits == 0x8 {
            "Select Speed"
        } else if bits == 0x10 {
            "Select Disc"
        } else if bits == 0x20 {
            "Multi Session"
        } else if bits == 0x80 {
            "Media Change Detection"
        } else if bits == 0x100 {
            "Hard Reset"
        } else {
            "Unknown"
        }
    }

    /// The display name of a single flag, or "Unknown" for any other set.
    pub fn name(&self) -> (r: &'static str)
        ensures
            r == Self::spec_name_of(self.spec_bits()),
    {
        if self.bits == 0x1 {
            "Close Tray"
        } else if self.bits == 0x2 {
            "Eject"
        } else if self.bits == 0x4 {
            "Lock"
        } else if self.bits == 0x8 {
            "Select Speed"
        } else if self.bits == 0x10 {
            "Select Disc"
        } else if self.bits == 0x20 {
            "Multi Session"
        } else if self.bits == 0x80 {
            "Media Change Detection"
        } else if self.bits == 0x100 {
            "Hard Reset"
        } else {
            "Unknown"
        }
    }

    /// Can close tray
    pub fn close_tray() -> (r: MiscCapabilities)
        ensures
            r.spec_bits() == 0x1,
    {
        MiscCapabilities { bits: 0x1 }
    }

    /// Can eject
    pub fn eject() -> (r: MiscCapabilities)
        ensures
            r.spec_bits() == 0x2,
    {
        MiscCapabilities { bits: 0x2 }
    }

    /// Can disable manual eject
    pub fn lock() -> (r: MiscCapabilities)
        ensures
            r.spec_bits() == 0x4,
    {
        MiscCapabilities { bits: 0x4 }
    }

    /// Can set drive speed
    pub fn select_speed() -> (r: MiscCapabilities)
        ensures
            r.spec_bits() == 0x8,
    {
        MiscCapabilities { bits: 0x8 }
    }

    /// Can select juke-box disc
    pub fn select_disc() -> (r: MiscCapabilities)
        ensures
            r.spec_bits() == 0x10,
    {
        MiscCapabilities { bits: 0x10 }
    }

    /// Can read multiple sessions
    pub fn multi_session() -> (r: MiscCapabilities)
        ensures
            r.spec_bits() == 0x20,
    {
        MiscCapabilities { bits: 0x20 }
    }

    /// Can detect if media changed
    pub fn media_changed() -> (r: MiscCapabilities)
        ensures
            r.spec_bits() == 0x80,
    {
        MiscCapabilities { bits: 0x80 }
    }

    /// Can hard reset device
    pub fn reset() -> (r: MiscCapabilities)
        ensures
            r.spec_bits() == 0x100,
    {
        MiscCapabilities { bits: 0x100 }
    }
}

/// Read capabilities of the drive.
#[derive(Clone, Copy, Debug, Default, PartialEq, Eq, PartialOrd, Ord, Hash)]
pub struct ReadCapabilities {
    bits: u32,
}

/// The flags of [`ReadCapabilities`], one bit each, in declaration order.
pub open spec fn read_capabilities_known() -> Seq<u32> {
    seq![0x1u32, 0x2u32, 0x4u32, 0x8u32, 0x10u32, 0x20u32, 0x40u32, 0x80u32, 0x100u32, 0x200u32, 0x400u32, 0x800u32, 0x1000u32, 0x2000u32, 0x4000u32, 0x8000u32]
}

impl ReadCapabilities {
    /// A set of known flags is the union of the flags that it contains,
    /// which [`Self::iter_flags`] lists.
    pub proof fn lemma_flags_make_up_set(c: ReadCapabilities)
        requires
            c.spec_bits() & !Self::spec_all_bits() == 0,
        ensures
            union_of(contained_flags(c.spec_bits(), read_capabilities_known())) == c.spec_bits(),
    {
        let known = read_capabilities_known();
        assert(known.take(0) =~= Seq::<u32>::empty());
        lemma_union_of_take(known, 0);
        lemma_union_of_take(known, 1);
        lemma_union_of_take(known, 2);
        lemma_union_of_take(known, 3);
        lemma_union_of_take(known, 4);
        lemma_union_of_take(known, 5);
        lemma_union_of_take(known, 6);
        lemma_union_of_take(known, 7);
        lemma_union_of_take(known, 8);
        lemma_union_of_take(known, 9);
        lemma_union_of_take(known, 10);
        lemma_union_of_take(known, 11);
        lemma_union_of_take(known, 12);
        lemma_union_of_take(known, 13);
        lemma_union_of_take(known, 14);
        lemma_union_of_take(known, 15);
        assert(known.take(16) =~= known);
        assert(((((((((((((((((0u32 | 0x1u32) | 0x2u32) | 0x4u32) | 0x8u32) | 0x10u32) | 0x20u32) | 0x40u32) | 0x80u32) | 0x100u32) | 0x200u32) | 0x400u32) | 0x800u32) | 0x1000u32) | 0x2000u32) | 0x4000u32) | 0x8000u32) == 0xFFFFu32) by (bit_vector);
        lemma_contained_flags_union(c.spec_bits(), known);
        let b = c.spec_bits();
        assert(b & 0xFFFFu32 == b) by (bit_vector)
            requires
                b & !0xFFFFu32 == 0,
        ;
    }

    /// The raw bits of the set.
    pub closed spec fn spec_bits(&self) -> u32 {
        self.bits
    }

    /// The raw bits of the set.
    #[verifier::when_used_as_spec(spec_bits)]
    pub fn bits(&self) -> (r: u32)
        ensures
            r == self.spec_bits(),
    {
        self.bits
    }

    /// Two sets with the same bits are the same set.
    pub proof fn lemma_bits_determine(a: ReadCapabilities, b: ReadCapabilities)
        ensures
            a.spec_bits() == b.spec_bits() ==> a == b,
    {
    }

    /// The bits that name a flag.
    pub open spec fn spec_all_bits() -> u32 {
        0xFFFF
    }

    /// The set of the flags in `bits`, if all bits name a flag.
    pub fn from_bits(bits: u32) -> (r: Option<ReadCapabilities>)
        ensures
            r is Some <==> bits & !Self::spec_all_bits() == 0,
            r matches Some(c) ==> c.spec_bits() == bits,
    {
        if bits & !0xFFFFu32 == 0 {
            Some(ReadCapabilities { bits })
        } else {
            None
        }
    }

    /// The set of the known flags among `bits`; other bits are dropped.
    pub fn from_bits_truncate(bits: u32) -> (r: ReadCapabilities)
        ensures
            r.spec_bits() == bits & Self::spec_all_bits(),
    {
        ReadCapabilities { bits: bits & 0xFFFF }
    }

    /// Whether all flags of `other` are in the set.
    pub fn contains(&self, other: ReadCapabilities) -> (r: bool)
        ensures
            r == (self.spec_bits() & other.spec_bits() == other.spec_bits()),
    {
        self.bits & other.bits == other.bits
    }

    /// Whether the set is empty.
    pub fn is_empty(&self) -> (r: bool)
        ensures
            r == (self.spec_bits() == 0),
    {
        self.bits == 0
    }

    /// The flags of the set, each alone, in declaration order.
    pub fn iter_flags(&self) -> (r: Vec<ReadCapabilities>)
        ensures
            r@.map_values(|f: ReadCapabilities| f.spec_bits()) == contained_flags(self.spec_bits(), read_capabilities_known()),
    {
        let known: [u32; 16] = [0x1u32, 0x2u32, 0x4u32, 0x8u32, 0x10u32, 0x20u32, 0x40u32, 0x80u32, 0x100u32, 0x200u32, 0x400u32, 0x800u32, 0x1000u32, 0x2000u32, 0x4000u32, 0x8000u32];
        let ghost kseq = read_capabilities_known();
        assert(known@ =~= kseq);
        let mut r: Vec<ReadCapabilities> = Vec::new();
        let mut i: usize = 0;
        while i < 16
            invariant
                i <= 16,
                known@ == kseq,
                kseq.len() == 16,
                r@.map_values(|f: ReadCapabilities| f.spec_bits()) == contained_flags(self.spec_bits(), kseq.take(i as int)),
            decreases 16 - i,
        {
            let b = known[i];
            let ghost before = r@;
            proof {
                assert(kseq.take(i + 1).drop_last() =~= kseq.take(i as int));
                assert(kseq.take(i + 1).last() == b);
            }
            if self.bits & b != 0 {
                r.push(ReadCapabilities { bits: b });
                assert(r@.map_values(|f: ReadCapabilities| f.spec_bits()) =~= before.map_values(|f: ReadCapabilities| f.spec_bits()).push(b));
            }
            i = i + 1;
        }
        assert(kseq.take(16) =~= kseq);
        r
    }

    /// The display name of the single flag with bits `bits`, or "Unknown".
    pub open spec fn spec_name_of(bits: u32) -> &'static str {
        if bits == 0x1 {
            "Play Audio"
        } else if bits == 0x2 {
            "CD-DA"
        } else if bits == 0x4 {
            "CD+G"
        } else if bits == 0x8 {
            "CD-R"
        } else if bits == 0x10 {
            "CD-RW"
        } else if bits == 0x20 {
            "DVD-R"
        } else if bits == 0x40 {
            "DVD+R"
        } else if bits == 0x80 {
            "DVD-RAM"
        } else if bits == 0x100 {
            "DVD-ROM"
        } else if bits == 0x200 {
            "DVD-RW"
        } else if bits == 0x400 {
            "DVD+RW"
        } else if bits == 0x800 {
            "C2 Errors"
        } else if bits == 0x1000 {
            "Mode 2 Form 1 (VCD)"
        } else if bits == 0x2000 {
            "Mode 2 Form 2 (VCD)"
        } else if bits == 0x4000 {
            "MCN"
        } else if bits == 0x8000 {
            "ISRC"
        } else {
            "Unknown"
        }
    }

    /// The display name of a single flag, or "Unknown" for any other set.
    pub fn name(&self) -> (r: &'static str)
        ensures
            r == Self::spec_name_of(self.spec_bits()),
    {
        if self.bits == 0x1 {
            "Play Audio"
        } else if self.bits == 0x2 {
            "CD-DA"
        } else if self.bits == 0x4 {
            "CD+G"
        } else if self.bits == 0x8 {
            "CD-R"
        } else if self.bits == 0x10 {
            "CD-RW"
        } else if self.bits == 0x20 {
            "DVD-R"
        } else if self.bits == 0x40 {
            "DVD+R"
        } else if self.bits == 0x80 {
            "DVD-RAM"
        } else if self.bits == 0x100 {
            "DVD-ROM"
        } else if self.bits == 0x200 {
            "DVD-RW"
        } else if self.bits == 0x400 {
            "DVD+RW"
        } else if self.bits == 0x800 {
            "C2 Errors"
        } else if self.bits == 0x1000 {
            "Mode 2 Form 1 (VCD)"
        } else if self.bits == 0x2000 {
            "Mode 2 Form 2 (VCD)"
        } else if self.bits == 0x4000 {
            "MCN"
        } else if self.bits == 0x8000 {
            "ISRC"
        } else {
            "Unknown"
        }
    }

    /// Can play audio
    pub fn audio() -> (r: ReadCapabilities)
        ensures
            r.spec_bits() == 0x1,
    {
        ReadCapabilities { bits: 0x1 }
    }

    /// Can read CD-DA
    pub fn cd_da() -> (r: ReadCapabilities)
        ensures
            r.spec_bits() == 0x2,
    {
        ReadCapabilities { bits: 0x2 }
    }

    /// Can read CD+G
    pub fn cd_plus_g() -> (r: ReadCapabilities)
        ensures
            r.spec_bits() == 0x4,
    {
        ReadCapabilities { bits: 0x4 }
    }

    /// Can read CD-R
    pub fn cd_r() -> (r: ReadCapabilities)
        ensures
            r.spec_bits() == 0x8,
    {
        ReadCapabilities { bits: 0x8 }
    }

    /// Can read CD-RW
    pub fn cd_rw() -> (r: ReadCapabilities)
        ensures
            r.spec_bits() == 0x10,
    {
        ReadCapabilities { bits: 0x10 }
    }

    /// Can read DVD-R
    pub fn dvd_r() -> (r: ReadCapabilities)
        ensures
            r.spec_bits() == 0x20,
    {
        ReadCapabilities { bits: 0x20 }
    }

    /// Can read DVD+R
    pub fn dvd_plus_r() -> (r: ReadCapabilities)
        ensures
            r.spec_bits() == 0x40,
    {
        ReadCapabilities { bits: 0x40 }
    }

    /// Can read DVD-RAM
    pub fn dvd_ram() -> (r: ReadCapabilities)
        ensures
            r.spec_bits() == 0x80,
    {
        ReadCapabilities { bits: 0x80 }
    }

    /// Can read DVD-ROM
    pub fn dvd_rom() -> (r: ReadCapabilities)
        ensures
            r.spec_bits() == 0x100,
    {
        ReadCapabilities { bits: 0x100 }
    }

    /// Can read DVD-RW
    pub fn dvd_rw() -> (r: ReadCapabilities)
        ensures
            r.spec_bits() == 0x200,
    {
        ReadCapabilities { bits: 0x200 }
    }

    /// Can read DVD+RW
    pub fn dvd_plus_rw() -> (r: ReadCapabilities)
        ensures
            r.spec_bits() == 0x400,
    {
        ReadCapabilities { bits: 0x400 }
    }

    /// Can read C2 errors
    pub fn c2_errors() -> (r: ReadCapabilities)
        ensures
            r.spec_bits() == 0x800,
    {
        ReadCapabilities { bits: 0x800 }
    }

    /// Can read Mode 2 Form 1 (VCD)
    pub fn mode2_form1() -> (r: ReadCapabilities)
        ensures
            r.spec_bits() == 0x1000,
    {
        ReadCapabilities { bits: 0x1000 }
    }

    /// Can read Mode 2 Form 2 (VCD)
    pub fn mode2_form2() -> (r: ReadCapabilities)
        ensures
            r.spec_bits() == 0x2000,
    {
        ReadCapabilities { bits: 0x2000 }
    }

    /// Can read MCN
    pub fn mcn() -> (r: ReadCapabilities)
        ensures
            r.spec_bits() == 0x4000,
    {
        ReadCapabilities { bits: 0x4000 }
    }

    /// Can read ISRC
    pub fn isrc() -> (r: ReadCapabilities)
        ensures
            r.spec_bits() == 0x8000,
    {
        ReadCapabilities { bits: 0x8000 }
    }
}

/// Write capabilities of the drive.
#[derive(Clone, Copy, Debug, Default, PartialEq, Eq, PartialOrd, Ord, Hash)]
pub struct WriteCapabilities {
    bits: u32,
}

/// The flags of [`WriteCapabilities`], one bit each, in declaration order.
pub open spec fn write_capabilities_known() -> Seq<u32> {
    seq![0x1u32, 0x2u32, 0x4u32, 0x8u32, 0x10u32, 0x20u32, 0x40u32, 0x80u32, 0x100u32]
}

impl WriteCapabilities {
    /// A set of known flags is the union of the flags that it contains,
    /// which [`Self::iter_flags`] lists.
    pub proof fn lemma_flags_make_up_set(c: WriteCapabilities)
        requires
            c.spec_bits() & !Self::spec_all_bits() == 0,
        ensures
            union_of(contained_flags(c.spec_bits(), write_capabilities_known())) == c.spec_bits(),
    {
        let known = write_capabilities_known();
        assert(known.take(0) =~= Seq::<u32>::empty());
        lemma_union_of_take(known, 0);
        lemma_union_of_take(known, 1);
        lemma_union_of_take(known, 2);
        lemma_union_of_take(known, 3);
        lemma_union_of_take(known, 4);
        lemma_union_of_take(known, 5);
        lemma_union_of_take(known, 6);
        lemma_union_of_take(known, 7);
        lemma_union_of_take(known, 8);
        assert(known.take(9) =~= known);
        assert((((((((((0u32 | 0x1u32) | 0x2u32) | 0x4u32) | 0x8u32) | 0x10u32) | 0x20u32) | 0x40u32) | 0x80u32) | 0x100u32) == 0x1FFu32) by (bit_vector);
        lemma_contained_flags_union(c.spec_bits(), known);
        let b = c.spec_bits();
        assert(b & 0x1FFu32 == b) by (bit_vector)
            requires
                b & !0x1FFu32 == 0,
        ;
    }

    /// The raw bits of the set.
    pub closed spec fn spec_bits(&self) -> u32 {
        self.bits
    }

    /// The raw bits of the set.
    #[verifier::when_used_as_spec(spec_bits)]
    pub fn bits(&self) -> (r: u32)
        ensures
            r == self.spec_bits(),
    {
        self.bits
    }

    /// Two sets with the same bits are the same set.
    pub proof fn lemma_bits_determine(a: WriteCapabilities, b: WriteCapabilities)
        ensures
            a.spec_bits() == b.spec_bits() ==> a == b,
    {
    }

    /// The bits that name a flag.
    pub open spec fn spec_all_bits() -> u32 {
        0x1FF
    }

    /// The set of the flags in `bits`, if all bits name a flag.
    pub fn from_bits(bits: u32) -> (r: Option<WriteCapabilities>)
        ensures
            r is Some <==> bits & !Self::spec_all_bits() == 0,
            r matches Some(c) ==> c.spec_bits() == bits,
    {
        if bits & !0x1FFu32 == 0 {
            Some(WriteCapabilities { bits })
        } else {
            None
        }
    }

    /// The set of the known flags among `bits`; other bits are dropped.
    pub fn from_bits_truncate(bits: u32) -> (r: WriteCapabilities)
        ensures
            r.spec_bits() == bits & Self::spec_all_bits(),
    {
        WriteCapabilities { bits: bits & 0x1FF }
    }

    /// Whether all flags of `other` are in the set.
    pub fn contains(&self, other: WriteCapabilities) -> (r: bool)
        ensures
            r == (self.spec_bits() & other.spec_bits() == other.spec_bits()),
    {
        self.bits & other.bits == other.bits
    }

    /// Whether the set is empty.
    pub fn is_empty(&self) -> (r: bool)
        ensures
            r == (self.spec_bits() == 0),
    {
        self.bits == 0
    }

    /// The flags of the set, each alone, in declaration order.
    pub fn iter_flags(&self) -> (r: Vec<WriteCapabilities>)
        ensures
            r@.map_values(|f: WriteCapabilities| f.spec_bits()) == contained_flags(self.spec_bits(), write_capabilities_known()),
    {
        let known: [u32; 9] = [0x1u32, 0x2u32, 0x4u32, 0x8u32, 0x10u32, 0x20u32, 0x40u32, 0x80u32, 0x100u32];
        let ghost kseq = write_capabilities_known();
        assert(known@ =~= kseq);
        let mut r: Vec<WriteCapabilities> = Vec::new();
        let mut i: usize = 0;
        while i < 9
            invariant
                i <= 9,
                known@ == kseq,
                kseq.len() == 9,
                r@.map_values(|f: WriteCapabilities| f.spec_bits()) == contained_flags(self.spec_bits(), kseq.take(i as int)),
            decreases 9 - i,
        {
            let b = known[i];
            let ghost before = r@;
            proof {
                assert(kseq.take(i + 1).drop_last() =~= kseq.take(i as int));
                assert(kseq.take(i + 1).last() == b);
            }
            if self.bits & b != 0 {
                r.push(WriteCapabilities { bits: b });
                assert(r@.map_values(|f: WriteCapabilities| f.spec_bits()) =~= before.map_values(|f: WriteCapabilities| f.spec_bits()).push(b));
            }
            i = i + 1;
        }
        assert(kseq.take(9) =~= kseq);
        r
    }

    /// The display name of the single flag with bits `bits`, or "Unknown".
    pub open spec fn spec_name_of(bits: u32) -> &'static str {
        if bits == 0x1 {
            "CD-R"
        } else if bits == 0x2 {
            "CD-RW"
        } else if bits == 0x4 {
            "DVD-R"
        } else if bits == 0x8 {
            "DVD+R"
        } else if bits == 0x10 {
            "DVD-RAM"
        } else if bits == 0x20 {
            "DVD-RW"
        } else if bits == 0x40 {
            "DVD+RW"
        } else if bits == 0x80 {
            "MRW"
        } else if bits == 0x100 {
            "Burn Proof"
        } else {
            "Unknown"
        }
    }

    /// The display name of a single flag, or "Unknown" for any other set.
    pub fn name(&self) -> (r: &'static str)
        ensures
            r == Self::spec_name_of(self.spec_bits()),
    {
        if self.bits == 0x1 {
            "CD-R"
        } else if self.bits == 0x2 {
            "CD-RW"
        } else if self.bits == 0x4 {
            "DVD-R"
        } else if self.bits == 0x8 {
            "DVD+R"
        } else if self.bits == 0x10 {
            "DVD-RAM"
        } else if self.bits == 0x20 {
            "DVD-RW"
        } else if self.bits == 0x40 {
            "DVD+RW"
        } else if self.bits == 0x80 {
            "MRW"
        } else if self.bits == 0x100 {
            "Burn Proof"
        } else {
            "Unknown"
        }
    }

    /// Can write CD-R
    pub fn cd_r() -> (r: WriteCapabilities)
        ensures
            r.spec_bits() == 0x1,
    {
        WriteCapabilities { bits: 0x1 }
    }

    /// Can write CD-RW
    pub fn cd_rw() -> (r: WriteCapabilities)
        ensures
            r.spec_bits() == 0x2,
    {
        WriteCapabilities { bits: 0x2 }
    }

    /// Can write DVD-R
    pub fn dvd_r() -> (r: WriteCapabilities)
        ensures
            r.spec_bits() == 0x4,
    {
        WriteCapabilities { bits: 0x4 }
    }

    /// Can write DVD+R
    pub fn dvd_plus_r() -> (r: WriteCapabilities)
        ensures
            r.spec_bits() == 0x8,
    {
        WriteCapabilities { bits: 0x8 }
    }

    /// Can write DVD-RAM
    pub fn dvd_ram() -> (r: WriteCapabilities)
        ensures
            r.spec_bits() == 0x10,
    {
        WriteCapabilities { bits: 0x10 }
    }

    /// Can write DVD-RW
    pub fn dvd_rw() -> (r: WriteCapabilities)
        ensures
            r.spec_bits() == 0x20,
    {
        WriteCapabilities { bits: 0x20 }
    }

    /// Can write DVD+RW
    pub fn dvd_plus_rw() -> (r: WriteCapabilities)
        ensures
            r.spec_bits() == 0x40,
    {
        WriteCapabilities { bits: 0x40 }
    }

    /// Can write MRW (Mount Rainier)
    pub fn mrw() -> (r: WriteCapabilities)
        ensures
            r.spec_bits() == 0x80,
    {
        WriteCapabilities { bits: 0x80 }
    }

    /// Can write using Burn proof
    pub fn burn_proof() -> (r: WriteCapabilities)
        ensures
            r.spec_bits() == 0x100,
    {
        WriteCapabilities { bits: 0x100 }
    }
}

} // verus!
