//! Cross-payload shared types: keys, party identifiers, work / recording
//! references, titles and the shared range rules.
use vstd::prelude::*;

use crate::bounded::MiddsString;
use crate::format_error::MiddsFormatError;
use crate::identifier::{
    ipi_format, ipn_format, isni_format, isrc_format, iswc_format, validate_ipi_format,
    validate_ipn_format, validate_isni_format, validate_isrc_format, validate_iswc_format, Ipi,
    Ipn, Isni, Isrc, Iswc, MiddsId,
};

verus! {

/// Maximum byte length of a title (work title, recording title, alias).
pub const TITLE_MAX_LEN: u32 = 256;

/// A free-text title.
pub type Title = MiddsString<256>;

/// Inclusive lower bound for `creation_year` / `record_year`.
pub const YEAR_MIN: u16 = 1;

/// Inclusive upper bound for `creation_year` / `record_year`.
pub const YEAR_MAX: u16 = 2999;

/// Inclusive lower bound for `bpm`.
pub const BPM_MIN: u16 = 20;

/// Inclusive upper bound for `bpm`.
pub const BPM_MAX: u16 = 300;

/// Pitch class with explicit accidental spelling (sharp and common flat
/// spellings are distinct: a work in E♭ must round-trip as E♭).
#[derive(Clone, Copy, PartialEq, Eq, Debug, Structural)]
pub enum PitchClass {
    C,
    CSharp,
    D,
    DSharp,
    E,
    F,
    FSharp,
    G,
    GSharp,
    A,
    ASharp,
    B,
    DFlat,
    EFlat,
    GFlat,
    AFlat,
    BFlat,
}

/// Diatonic mode.
#[derive(Clone, Copy, PartialEq, Eq, Debug, Structural)]
pub enum Mode {
    Major,
    Minor,
}

/// Diatonic key: pitch class plus mode.
#[derive(Clone, Copy, PartialEq, Eq, Debug, Structural)]
pub struct MusicalKey {
    pub pitch: PitchClass,
    pub mode: Mode,
}

/// External identifier of a natural or legal person: an IPI, an ISNI, or
/// both when the same party is known under the two registries.
#[derive(Debug, Clone, PartialEq, Eq)]
pub enum PartyId {
    Ipi(Ipi),
    Isni(Isni),
    Both { ipi: Ipi, isni: Isni },
}

/// Outcome of the party-identifier rule.
pub open spec fn party_id_check(p: PartyId) -> Result<(), MiddsFormatError> {
    match p {
        PartyId::Ipi(v) => ipi_format(v@),
        PartyId::Isni(v) => isni_format(v@),
        PartyId::Both { ipi, isni } => if ipi_format(ipi@) is Err {
            ipi_format(ipi@)
        } else {
            isni_format(isni@)
        },
    }
}

impl PartyId {
    /// Validates every identifier the party carries (IPI first for `Both`).
    pub fn validate_format(&self) -> (r: Result<(), MiddsFormatError>)
        ensures
            r == party_id_check(*self),
    {
        match self {
            PartyId::Ipi(v) => validate_ipi_format(v.as_slice()),
            PartyId::Isni(v) => validate_isni_format(v.as_slice()),
            PartyId::Both { ipi, isni } => {
                validate_ipi_format(ipi.as_slice())?;
                validate_isni_format(isni.as_slice())
            },
        }
    }
}

/// Performer-specific identifier: an IPN (performer-CMO registry, preferred)
/// or, as a fallback, an IPI or an ISNI.
#[derive(Debug, Clone, PartialEq, Eq)]
pub enum PerformerId {
    Ipn(Ipn),
    Ipi(Ipi),
    Isni(Isni),
}

/// Outcome of the performer-identifier rule.
pub open spec fn performer_id_check(p: PerformerId) -> Result<(), MiddsFormatError> {
    match p {
        PerformerId::Ipn(v) => ipn_format(v@),
        PerformerId::Ipi(v) => ipi_format(v@),
        PerformerId::Isni(v) => isni_format(v@),
    }
}

impl PerformerId {
    /// Validates the carried identifier.
    pub fn validate_format(&self) -> (r: Result<(), MiddsFormatError>)
        ensures
            r == performer_id_check(*self),
    {
        match self {
            PerformerId::Ipn(v) => validate_ipn_format(v.as_slice()),
            PerformerId::Ipi(v) => validate_ipi_format(v.as_slice()),
            PerformerId::Isni(v) => validate_isni_format(v.as_slice()),
        }
    }
}

/// Reference to a musical work: its on-chain MIDDS id or its external ISWC.
#[derive(Debug, Clone, PartialEq, Eq)]
pub enum WorkRef {
    /// On-chain `MusicalWork` MIDDS id.
    Midds(MiddsId),
    /// External ISWC of the work.
    Iswc(Iswc),
}

/// Outcome of the work-reference rule.
pub open spec fn work_ref_check(w: WorkRef) -> Result<(), MiddsFormatError> {
    match w {
        WorkRef::Midds(_) => Ok(()),
        WorkRef::Iswc(i) => iswc_format(i@),
    }
}

/// Two work references designate the same thing (same variant, same content).
pub open spec fn same_work_ref(a: WorkRef, b: WorkRef) -> bool {
    match (a, b) {
        (WorkRef::Midds(x), WorkRef::Midds(y)) => x == y,
        (WorkRef::Iswc(x), WorkRef::Iswc(y)) => x@ == y@,
        _ => false,
    }
}

impl WorkRef {
    /// Validates the reference (an ISWC reference must be well-formed).
    pub fn validate_format(&self) -> (r: Result<(), MiddsFormatError>)
        ensures
            r == work_ref_check(*self),
    {
        match self {
            WorkRef::Midds(_) => Ok(()),
            WorkRef::Iswc(i) => validate_iswc_format(i.as_slice()),
        }
    }

    /// Whether `self` and `other` designate the same work reference.
    pub fn same_as(&self, other: &WorkRef) -> (r: bool)
        ensures
            r == same_work_ref(*self, *other),
    {
        match (self, other) {
            (WorkRef::Midds(x), WorkRef::Midds(y)) => *x == *y,
            (WorkRef::Iswc(x), WorkRef::Iswc(y)) => bytes_equal(x.as_slice(), y.as_slice()),
            _ => false,
        }
    }
}

/// Reference to a recording: its on-chain MIDDS id or its external ISRC.
#[derive(Debug, Clone, PartialEq, Eq)]
pub enum RecordingRef {
    /// On-chain `Recording` MIDDS id.
    Midds(MiddsId),
    /// External ISRC of the recording.
    Isrc(Isrc),
}

/// Outcome of the recording-reference rule.
pub open spec fn recording_ref_check(r: RecordingRef) -> Result<(), MiddsFormatError> {
    match r {
        RecordingRef::Midds(_) => Ok(()),
        RecordingRef::Isrc(i) => isrc_format(i@),
    }
}

/// Two recording references designate the same thing.
pub open spec fn same_recording_ref(a: RecordingRef, b: RecordingRef) -> bool {
    match (a, b) {
        (RecordingRef::Midds(x), RecordingRef::Midds(y)) => x == y,
        (RecordingRef::Isrc(x), RecordingRef::Isrc(y)) => x@ == y@,
        _ => false,
    }
}

impl RecordingRef {
    /// Validates the reference (an ISRC reference must be well-formed).
    pub fn validate_format(&self) -> (r: Result<(), MiddsFormatError>)
        ensures
            r == recording_ref_check(*self),
    {
        match self {
            RecordingRef::Midds(_) => Ok(()),
            RecordingRef::Isrc(i) => validate_isrc_format(i.as_slice()),
        }
    }

    /// Whether `self` and `other` designate the same recording reference.
    pub fn same_as(&self, other: &RecordingRef) -> (r: bool)
        ensures
            r == same_recording_ref(*self, *other),
    {
        match (self, other) {
            (RecordingRef::Midds(x), RecordingRef::Midds(y)) => *x == *y,
            (RecordingRef::Isrc(x), RecordingRef::Isrc(y)) => bytes_equal(x.as_slice(), y.as_slice()),
            _ => false,
        }
    }
}

/// Byte-wise equality of two slices.
pub fn bytes_equal(a: &[u8], b: &[u8]) -> (r: bool)
    ensures
        r == (a@ == b@),
{
    if a.len() != b.len() {
        return false;
    }
    let mut i: usize = 0;
    while i < a.len()
        invariant
            a@.len() == b@.len(),
            0 <= i <= a@.len(),
            forall|j: int| 0 <= j < i ==> a@[j] == b@[j],
        decreases a@.len() - i,
    {
        if a[i] != b[i] {
            return false;
        }
        i += 1;
    }
    assert(a@ =~= b@);
    true
}

/// Outcome of the non-empty rule for a mandatory text field.
pub open spec fn non_empty_check(s: Seq<u8>) -> Result<(), MiddsFormatError> {
    if s.len() == 0 {
        Err(MiddsFormatError::EmptyMandatoryField)
    } else {
        Ok(())
    }
}

/// Rejects an empty mandatory field.
pub fn require_non_empty(s: &[u8]) -> (r: Result<(), MiddsFormatError>)
    ensures
        r == non_empty_check(s@),
{
    if s.len() == 0 {
        Err(MiddsFormatError::EmptyMandatoryField)
    } else {
        Ok(())
    }
}

/// Outcome of the year range rule (`1..=2999` when present).
pub open spec fn year_check(y: Option<u16>) -> Result<(), MiddsFormatError> {
    match y {
        Some(v) => if YEAR_MIN <= v && v <= YEAR_MAX {
            Ok(())
        } else {
            Err(MiddsFormatError::OutOfBounds)
        },
        None => Ok(()),
    }
}

/// Rejects a present year outside `1..=2999`.
pub fn require_year_in_bounds(y: Option<u16>) -> (r: Result<(), MiddsFormatError>)
    ensures
        r == year_check(y),
{
    match y {
        Some(v) => if YEAR_MIN <= v && v <= YEAR_MAX {
            Ok(())
        } else {
            Err(MiddsFormatError::OutOfBounds)
        },
        None => Ok(()),
    }
}

/// Outcome of the tempo range rule (`20..=300` when present).
pub open spec fn bpm_check(b: Option<u16>) -> Result<(), MiddsFormatError> {
    match b {
        Some(v) => if BPM_MIN <= v && v <= BPM_MAX {
            Ok(())
        } else {
            Err(MiddsFormatError::OutOfBounds)
        },
        None => Ok(()),
    }
}

/// Rejects a present tempo outside `20..=300`.
pub fn require_bpm_in_bounds(b: Option<u16>) -> (r: Result<(), MiddsFormatError>)
    ensures
        r == bpm_check(b),
{
    match b {
        Some(v) => if BPM_MIN <= v && v <= BPM_MAX {
            Ok(())
        } else {
            Err(MiddsFormatError::OutOfBounds)
        },
        None => Ok(()),
    }
}

} // verus!
