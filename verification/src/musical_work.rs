//! The `MusicalWork` payload (first on-chain version) and its parts.
use vstd::prelude::*;

use crate::bounded::{Bounded, MiddsString};
use crate::format_error::MiddsFormatError;
use crate::identifier::{
    iswc_format, offchain_hash_format, offchain_opt_check, validate_iswc_format, validate_offchain_hash, Iswc,
    OffchainHash,
};
use crate::language::Language;
use crate::midds::Midds;
use crate::scan::{
    first_failure, lemma_first_failure_all_ok, lemma_first_failure_at, lemma_first_failure_ok_iff,
    then_check,
};
use crate::shared::{
    bpm_check, bytes_equal, non_empty_check, party_id_check, require_bpm_in_bounds,
    require_non_empty, require_year_in_bounds, same_work_ref, work_ref_check, year_check,
    MusicalKey, PartyId, Title, WorkRef,
};

verus! {

/// Maximum number of creators attached to a work.
pub const CREATORS_MAX: u32 = 32;

/// Maximum number of distinct roles attributable to a single creator (the
/// number of [`CreatorRole`] variants).
pub const CREATOR_ROLES_MAX: u32 = 5;

/// Maximum byte length of an opus designation (e.g. "Op. 27 No. 2").
pub const OPUS_MAX_LEN: u32 = 32;

/// Maximum byte length of a thematic catalogue number (e.g. "BWV 565").
pub const CATALOG_NUMBER_MAX_LEN: u32 = 32;

/// Maximum number of source-work references carried by Medley / Mashup.
pub const WORK_REFERENCES_MAX: u32 = 32;

/// Maximum number of sampled-work references a work may declare.
pub const SAMPLES_MAX: u32 = 64;

/// Creators attached to a work (at least one is mandatory).
pub type Creators = Bounded<Creator, 32>;

/// Opus designation of a classical work.
pub type Opus = MiddsString<32>;

/// Thematic catalogue number of a classical work.
pub type CatalogNumber = MiddsString<32>;

/// Source-work ISWCs referenced by a Medley / Mashup.
pub type WorkReferences = Bounded<Iswc, 32>;

/// Works sampled by a work, each by MIDDS id or ISWC.
pub type SampleReferences = Bounded<WorkRef, 64>;

/// Top-level classification of a musical work, with the source ISWCs the
/// derived variants reference.
#[derive(Debug, Clone, PartialEq, Eq)]
pub enum WorkType {
    /// Standalone work — no source reference.
    Original,
    /// Several source works performed back-to-back.
    Medley(WorkReferences),
    /// Several source works combined into a single new work.
    Mashup(WorkReferences),
    /// Derivative work based on exactly one source.
    Adaptation(Iswc),
    /// Re-arrangement of exactly one source work.
    Rearrangement(Iswc),
}

/// Role attributed to a creator within a work, in canonical order.
#[derive(Clone, Copy, PartialEq, Eq, PartialOrd, Ord, Debug, Structural)]
pub enum CreatorRole {
    /// Wrote the lyrics.
    Author,
    /// Wrote the music.
    Composer,
    /// Arranged the music.
    Arranger,
    /// Adapted the lyrics (e.g. a translation).
    Adapter,
    /// Publishing entity administering the work.
    Publisher,
}

/// The set of roles one creator holds for a work. A role cannot repeat, and
/// role order is that of [`CreatorRole`].
#[derive(Clone, Copy, PartialEq, Eq, Debug, Structural)]
pub struct CreatorRoles {
    pub author: bool,
    pub composer: bool,
    pub arranger: bool,
    pub adapter: bool,
    pub publisher: bool,
}

impl CreatorRoles {
    /// Whether `role` is in the set.
    pub open spec fn has(self, role: CreatorRole) -> bool {
        match role {
            CreatorRole::Author => self.author,
            CreatorRole::Composer => self.composer,
            CreatorRole::Arranger => self.arranger,
            CreatorRole::Adapter => self.adapter,
            CreatorRole::Publisher => self.publisher,
        }
    }

    /// Whether the set holds no role.
    pub open spec fn spec_is_empty(self) -> bool {
        !self.author && !self.composer && !self.arranger && !self.adapter && !self.publisher
    }

    /// The empty set.
    pub fn new() -> (r: Self)
        ensures
            forall|role: CreatorRole| !r.has(role),
    {
        CreatorRoles { author: false, composer: false, arranger: false, adapter: false, publisher: false }
    }

    /// Adds `role`; returns whether it was absent before. The bound equals
    /// the number of roles, so insertion never overflows.
    pub fn try_insert(&mut self, role: CreatorRole) -> (r: Result<bool, CreatorRole>)
        ensures
            r == Ok::<bool, CreatorRole>(!old(self).has(role)),
            final(self).has(role),
            forall|other: CreatorRole| other != role ==> final(self).has(other) == old(self).has(other),
    {
        let was = self.contains(role);
        match role {
            CreatorRole::Author => self.author = true,
            CreatorRole::Composer => self.composer = true,
            CreatorRole::Arranger => self.arranger = true,
            CreatorRole::Adapter => self.adapter = true,
            CreatorRole::Publisher => self.publisher = true,
        }
        Ok(!was)
    }

    /// Whether `role` is in the set.
    pub fn contains(&self, role: CreatorRole) -> (r: bool)
        ensures
            r == self.has(role),
    {
        match role {
            CreatorRole::Author => self.author,
            CreatorRole::Composer => self.composer,
            CreatorRole::Arranger => self.arranger,
            CreatorRole::Adapter => self.adapter,
            CreatorRole::Publisher => self.publisher,
        }
    }

    /// Whether the set holds no role.
    pub fn is_empty(&self) -> (r: bool)
        ensures
            r == self.spec_is_empty(),
    {
        !self.author && !self.composer && !self.arranger && !self.adapter && !self.publisher
    }
}

/// A creator attached to a work: the party and the roles it holds.
#[derive(Debug, Clone, PartialEq, Eq)]
pub struct Creator {
    /// Roles this party holds for the work (at least one is mandatory).
    pub roles: CreatorRoles,
    /// The party, identified by IPI, ISNI or both.
    pub party: PartyId,
}

/// Outcome of the creator rule: a non-empty role set, then a valid party.
pub open spec fn creator_check(c: Creator) -> Result<(), MiddsFormatError> {
    if c.roles.spec_is_empty() {
        Err(MiddsFormatError::EmptyMandatoryField)
    } else {
        party_id_check(c.party)
    }
}

impl Creator {
    /// Validates the credit: a non-empty role set and a well-formed party.
    pub fn validate_format(&self) -> (r: Result<(), MiddsFormatError>)
        ensures
            r == creator_check(*self),
    {
        if self.roles.is_empty() {
            return Err(MiddsFormatError::EmptyMandatoryField);
        }
        self.party.validate_format()
    }
}

/// Classical-music metadata; every sub-field is optional.
#[derive(Debug, Clone, PartialEq, Eq)]
pub struct ClassicalInfo {
    /// Opus designation (e.g. "Op. 27 No. 2").
    pub opus: Option<Opus>,
    /// Thematic catalogue number (e.g. "K. 545").
    pub catalog_number: Option<CatalogNumber>,
    /// Number of voices / parts; must be positive when present.
    pub number_of_voices: Option<u16>,
}

/// Outcome of the classical-info rule: present texts non-empty, a present
/// voice count positive.
pub open spec fn classical_info_check(ci: ClassicalInfo) -> Result<(), MiddsFormatError> {
    if ci.opus matches Some(o) && o@.len() == 0 {
        Err(MiddsFormatError::EmptyMandatoryField)
    } else if ci.catalog_number matches Some(c) && c@.len() == 0 {
        Err(MiddsFormatError::EmptyMandatoryField)
    } else if ci.number_of_voices == Some(0u16) {
        Err(MiddsFormatError::OutOfBounds)
    } else {
        Ok(())
    }
}

impl ClassicalInfo {
    /// Validates the block: present sub-fields must be non-empty / positive.
    pub fn validate_format(&self) -> (r: Result<(), MiddsFormatError>)
        ensures
            r == classical_info_check(*self),
    {
        if let Some(o) = &self.opus {
            require_non_empty(o.as_slice())?;
        }
        if let Some(c) = &self.catalog_number {
            require_non_empty(c.as_slice())?;
        }
        if let Some(n) = self.number_of_voices {
            if n == 0 {
                return Err(MiddsFormatError::OutOfBounds);
            }
        }
        Ok(())
    }
}

/// First on-chain version of a `MusicalWork`.
#[derive(Debug, Clone, PartialEq, Eq)]
pub struct MusicalWorkV1 {
    /// Canonical ISWC of the work — the uniqueness-index key.
    pub iswc: Iswc,
    /// Primary title (mandatory, non-empty).
    pub title: Title,
    /// Year the work was created, in `1..=2999` when present.
    pub creation_year: Option<u16>,
    /// Whether the work has no lyrics.
    pub instrumental: bool,
    /// Language of the lyrics, when known.
    pub language: Option<Language>,
    /// Whether the work's lyrics are explicit.
    pub explicit_lyrics: bool,
    /// Tempo in beats per minute, in `20..=300` when present.
    pub bpm: Option<u16>,
    /// Diatonic key of the work, when known.
    pub key: Option<MusicalKey>,
    /// Original / derived classification, with source references.
    pub work_type: WorkType,
    /// Works sampled by this work.
    pub samples: SampleReferences,
    /// Creators of the work (at least one is mandatory).
    pub creators: Creators,
    /// Classical-music metadata, absent for non-classical works.
    pub classical_info: Option<ClassicalInfo>,
    /// Off-chain extension hash.
    pub offchain_extension: Option<OffchainHash>,
}

/// Outcome of the per-reference structure scan of a Medley / Mashup.
pub open spec fn refs_structure_check(refs: Seq<Iswc>) -> Result<(), MiddsFormatError> {
    first_failure(0, refs.len() as int, ref_structure_rule(refs))
}

/// Structure rule of each Medley / Mashup reference.
pub open spec fn ref_structure_rule(refs: Seq<Iswc>) -> spec_fn(int) -> Result<(), MiddsFormatError> {
    |i: int| iswc_format(refs[i]@)
}

/// Distinctness rule of each Medley / Mashup reference.
pub open spec fn ref_distinct_rule(refs: Seq<Iswc>, own: Seq<u8>) -> spec_fn(int) -> Result<(), MiddsFormatError> {
    |i: int|
        if ref_is_self_or_repeat(refs, own, i) {
            Err(MiddsFormatError::CrossFieldInconsistency)
        } else {
            Ok(())
        }
}

/// Rule of each sample.
pub open spec fn sample_rule(s: Seq<WorkRef>, own: Seq<u8>) -> spec_fn(int) -> Result<(), MiddsFormatError> {
    |i: int| sample_check(s, own, i)
}

/// Rule of each creator.
pub open spec fn creator_rule(c: Seq<Creator>) -> spec_fn(int) -> Result<(), MiddsFormatError> {
    |i: int| creator_check(c[i])
}

/// Reference `i` is the work itself or repeats an earlier reference.
pub open spec fn ref_is_self_or_repeat(refs: Seq<Iswc>, own: Seq<u8>, i: int) -> bool {
    refs[i]@ == own || exists|j: int| 0 <= j < i && refs[j]@ == refs[i]@
}

/// Outcome of the distinct-other-works scan of a Medley / Mashup.
pub open spec fn refs_distinct_check(refs: Seq<Iswc>, own: Seq<u8>) -> Result<(), MiddsFormatError> {
    first_failure(0, refs.len() as int, ref_distinct_rule(refs, own))
}

/// Outcome of the Medley / Mashup rule: at least two references, each a
/// well-formed ISWC, none the work itself and none repeated.
pub open spec fn source_list_check(refs: Seq<Iswc>, own: Seq<u8>) -> Result<(), MiddsFormatError> {
    if refs.len() < 2 {
        Err(MiddsFormatError::OutOfBounds)
    } else {
        then_check(refs_structure_check(refs), refs_distinct_check(refs, own))
    }
}

/// Outcome of the Adaptation / Rearrangement rule: a well-formed ISWC that is
/// not the work itself.
pub open spec fn single_source_check(src: Seq<u8>, own: Seq<u8>) -> Result<(), MiddsFormatError> {
    if iswc_format(src) is Err {
        iswc_format(src)
    } else if src == own {
        Err(MiddsFormatError::CrossFieldInconsistency)
    } else {
        Ok(())
    }
}

/// Outcome of the work-type rule.
pub open spec fn work_type_check(t: WorkType, own: Seq<u8>) -> Result<(), MiddsFormatError> {
    match t {
        WorkType::Original => Ok(()),
        WorkType::Medley(refs) => source_list_check(refs@, own),
        WorkType::Mashup(refs) => source_list_check(refs@, own),
        WorkType::Adaptation(src) => single_source_check(src@, own),
        WorkType::Rearrangement(src) => single_source_check(src@, own),
    }
}

/// Outcome of the rule for sample `i`: a valid reference, not the work's own
/// ISWC, and not a repeat of an earlier sample.
pub open spec fn sample_check(s: Seq<WorkRef>, own: Seq<u8>, i: int) -> Result<(), MiddsFormatError> {
    if work_ref_check(s[i]) is Err {
        work_ref_check(s[i])
    } else if s[i] matches WorkRef::Iswc(x) && x@ == own {
        Err(MiddsFormatError::CrossFieldInconsistency)
    } else if exists|j: int| 0 <= j < i && same_work_ref(s[j], s[i]) {
        Err(MiddsFormatError::CrossFieldInconsistency)
    } else {
        Ok(())
    }
}

/// Outcome of the samples scan.
pub open spec fn samples_check(s: Seq<WorkRef>, own: Seq<u8>) -> Result<(), MiddsFormatError> {
    first_failure(0, s.len() as int, sample_rule(s, own))
}

/// Outcome of the creators rule: non-empty, then each creator in order.
pub open spec fn creators_check(c: Seq<Creator>) -> Result<(), MiddsFormatError> {
    if c.len() == 0 {
        Err(MiddsFormatError::EmptyMandatoryField)
    } else {
        first_failure(0, c.len() as int, creator_rule(c))
    }
}

/// Outcome of the optional classical-info rule.
pub open spec fn classical_opt_check(ci: Option<ClassicalInfo>) -> Result<(), MiddsFormatError> {
    match ci {
        Some(c) => classical_info_check(c),
        None => Ok(()),
    }
}

/// Outcome of every structural rule of a `MusicalWorkV1`, in rule order: the
/// first violated rule decides the error.
pub open spec fn musical_work_v1_check(w: MusicalWorkV1) -> Result<(), MiddsFormatError> {
    then_check(
        iswc_format(w.iswc@),
        then_check(
            non_empty_check(w.title@),
            then_check(
                year_check(w.creation_year),
                then_check(
                    bpm_check(w.bpm),
                    then_check(
                        creators_check(w.creators@),
                        then_check(
                            work_type_check(w.work_type, w.iswc@),
                            then_check(
                                samples_check(w.samples@, w.iswc@),
                                then_check(
                                    classical_opt_check(w.classical_info),
                                    offchain_opt_check(w.offchain_extension),
                                ),
                            ),
                        ),
                    ),
                ),
            ),
        ),
    )
}

/// Whether `refs[i]` equals `own` or an earlier reference.
fn iswc_is_self_or_repeat(refs: &WorkReferences, own: &Iswc, i: usize) -> (r: bool)
    requires
        i < refs@.len(),
    ensures
        r == ref_is_self_or_repeat(refs@, own@, i as int),
{
    let cur = refs.get(i);
    if bytes_equal(cur.as_slice(), own.as_slice()) {
        return true;
    }
    let mut j: usize = 0;
    while j < i
        invariant
            i < refs@.len(),
            *cur == refs@[i as int],
            j <= i,
            forall|k: int| 0 <= k < j ==> refs@[k]@ != refs@[i as int]@,
            refs@[i as int]@ != own@,
        decreases i - j,
    {
        if bytes_equal(refs.get(j).as_slice(), cur.as_slice()) {
            return true;
        }
        j += 1;
    }
    false
}

/// Validates a Medley / Mashup source list against the work's own ISWC.
fn validate_source_list(refs: &WorkReferences, own: &Iswc) -> (r: Result<(), MiddsFormatError>)
    ensures
        r == source_list_check(refs@, own@),
{
    let n = refs.len();
    if n < 2 {
        return Err(MiddsFormatError::OutOfBounds);
    }
    let ghost f = ref_structure_rule(refs@);
    let mut i: usize = 0;
    while i < n
        invariant
            n == refs@.len(),
            n >= 2,
            i <= n,
            f == ref_structure_rule(refs@),
            forall|j: int| 0 <= j < i ==> #[trigger] f(j) is Ok,
        decreases n - i,
    {
        let r = validate_iswc_format(refs.get(i).as_slice());
        if r.is_err() {
            proof {
                lemma_first_failure_at(0, n as int, i as int, f);
            }
            return r;
        }
        i += 1;
    }
    proof {
        lemma_first_failure_all_ok(0, n as int, f);
    }
    let ghost g = ref_distinct_rule(refs@, own@);
    let mut i: usize = 0;
    while i < n
        invariant
            n == refs@.len(),
            n >= 2,
            i <= n,
            refs_structure_check(refs@) == Ok::<(), MiddsFormatError>(()),
            g == ref_distinct_rule(refs@, own@),
            forall|j: int| 0 <= j < i ==> #[trigger] g(j) is Ok,
        decreases n - i,
    {
        if iswc_is_self_or_repeat(refs, own, i) {
            proof {
                lemma_first_failure_at(0, n as int, i as int, g);
            }
            return Err(MiddsFormatError::CrossFieldInconsistency);
        }
        i += 1;
    }
    proof {
        lemma_first_failure_all_ok(0, n as int, g);
    }
    Ok(())
}

/// Validates an Adaptation / Rearrangement source against the own ISWC.
fn validate_single_source(src: &Iswc, own: &Iswc) -> (r: Result<(), MiddsFormatError>)
    ensures
        r == single_source_check(src@, own@),
{
    validate_iswc_format(src.as_slice())?;
    if bytes_equal(src.as_slice(), own.as_slice()) {
        return Err(MiddsFormatError::CrossFieldInconsistency);
    }
    Ok(())
}

/// Whether sample `i` repeats an earlier one.
fn sample_repeats_earlier(s: &SampleReferences, i: usize) -> (r: bool)
    requires
        i < s@.len(),
    ensures
        r == exists|j: int| 0 <= j < i && same_work_ref(s@[j], s@[i as int]),
{
    let cur = s.get(i);
    let mut j: usize = 0;
    while j < i
        invariant
            i < s@.len(),
            *cur == s@[i as int],
            j <= i,
            forall|k: int| 0 <= k < j ==> !same_work_ref(s@[k], s@[i as int]),
        decreases i - j,
    {
        if s.get(j).same_as(cur) {
            return true;
        }
        j += 1;
    }
    false
}

/// Validates the list of sampled works against the own ISWC.
fn validate_samples(s: &SampleReferences, own: &Iswc) -> (r: Result<(), MiddsFormatError>)
    ensures
        r == samples_check(s@, own@),
{
    let n = s.len();
    let ghost f = sample_rule(s@, own@);
    let mut i: usize = 0;
    while i < n
        invariant
            n == s@.len(),
            i <= n,
            f == sample_rule(s@, own@),
            forall|j: int| 0 <= j < i ==> #[trigger] f(j) is Ok,
        decreases n - i,
    {
        let cur = s.get(i);
        let r = cur.validate_format();
        let mut bad = r.is_err();
        let mut out = r;
        if !bad {
            if let WorkRef::Iswc(x) = cur {
                if bytes_equal(x.as_slice(), own.as_slice()) {
                    bad = true;
                    out = Err(MiddsFormatError::CrossFieldInconsistency);
                }
            }
        }
        if !bad && sample_repeats_earlier(s, i) {
            bad = true;
            out = Err(MiddsFormatError::CrossFieldInconsistency);
        }
        if bad {
            assert(out == f(i as int));
            proof {
                lemma_first_failure_at(0, n as int, i as int, f);
            }
            return out;
        }
        assert(f(i as int) is Ok);
        i += 1;
    }
    proof {
        lemma_first_failure_all_ok(0, n as int, f);
    }
    Ok(())
}

/// Validates the creators list.
fn validate_creators(c: &Creators) -> (r: Result<(), MiddsFormatError>)
    ensures
        r == creators_check(c@),
{
    let n = c.len();
    if n == 0 {
        return Err(MiddsFormatError::EmptyMandatoryField);
    }
    let ghost f = creator_rule(c@);
    let mut i: usize = 0;
    while i < n
        invariant
            n == c@.len(),
            i <= n,
            f == creator_rule(c@),
            forall|j: int| 0 <= j < i ==> #[trigger] f(j) is Ok,
        decreases n - i,
    {
        let r = c.get(i).validate_format();
        if r.is_err() {
            proof {
                lemma_first_failure_at(0, n as int, i as int, f);
            }
            return r;
        }
        i += 1;
    }
    proof {
        lemma_first_failure_all_ok(0, n as int, f);
    }
    Ok(())
}

impl MusicalWorkV1 {
    /// Validates every structural rule of the payload (charset, length,
    /// ranges, cardinality, cross-field consistency); the error is the one
    /// of the first violated rule.
    pub fn validate_format(&self) -> (r: Result<(), MiddsFormatError>)
        ensures
            r == musical_work_v1_check(*self),
    {
        validate_iswc_format(self.iswc.as_slice())?;
        require_non_empty(self.title.as_slice())?;
        require_year_in_bounds(self.creation_year)?;
        require_bpm_in_bounds(self.bpm)?;
        validate_creators(&self.creators)?;
        match &self.work_type {
            WorkType::Original => {},
            WorkType::Medley(refs) => validate_source_list(refs, &self.iswc)?,
            WorkType::Mashup(refs) => validate_source_list(refs, &self.iswc)?,
            WorkType::Adaptation(src) => validate_single_source(src, &self.iswc)?,
            WorkType::Rearrangement(src) => validate_single_source(src, &self.iswc)?,
        }
        validate_samples(&self.samples, &self.iswc)?;
        if let Some(ci) = &self.classical_info {
            ci.validate_format()?;
        }
        if let Some(h) = &self.offchain_extension {
            validate_offchain_hash(h.as_slice())?;
        }
        Ok(())
    }
}

/// Top-level versioned `MusicalWork`; new on-chain versions are added as new
/// variants.
#[derive(Debug, Clone, PartialEq, Eq)]
pub enum MusicalWork {
    V1(MusicalWorkV1),
}

impl Midds for MusicalWork {
    const KIND: &'static str = "MusicalWork";

    type Identifier = Iswc;

    open spec fn identifier_spec(&self) -> Iswc {
        match self {
            MusicalWork::V1(v) => v.iswc,
        }
    }

    open spec fn format_rules(&self) -> Result<(), MiddsFormatError> {
        match self {
            MusicalWork::V1(v) => musical_work_v1_check(*v),
        }
    }

    fn identifier(&self) -> (r: &Iswc) {
        match self {
            MusicalWork::V1(v) => &v.iswc,
        }
    }

    fn validate_format(&self) -> (r: Result<(), MiddsFormatError>) {
        match self {
            MusicalWork::V1(v) => v.validate_format(),
        }
    }
}

/// A work passes validation only if every classical sub-field it carries is
/// usable: a present opus and a present catalog number are non-empty, and a
/// present number of voices is positive. Any present but empty text
/// sub-field makes the classical block fail with `EmptyMandatoryField`.
pub proof fn lemma_classical_info_fields_required(w: MusicalWorkV1)
    ensures
        musical_work_v1_check(w) is Ok ==> (w.classical_info matches Some(ci) ==> {
            &&& (ci.opus matches Some(o) ==> o@.len() > 0)
            &&& (ci.catalog_number matches Some(c) ==> c@.len() > 0)
            &&& (ci.number_of_voices matches Some(n) ==> n > 0)
        }),
        w.classical_info matches Some(ci) && ((ci.opus matches Some(o) && o@.len() == 0) || (
        ci.catalog_number matches Some(c) && c@.len() == 0)) ==> classical_opt_check(
            w.classical_info,
        ) == Err::<(), MiddsFormatError>(MiddsFormatError::EmptyMandatoryField),
{
}

/// What every valid work satisfies: a well-formed ISWC, a non-empty title,
/// a creation year in `1..=2999` and a bpm in `20..=300` when given, at
/// least one creator, each with a role.
pub proof fn lemma_valid_work_fields(w: MusicalWorkV1)
    ensures
        musical_work_v1_check(w) is Ok ==> {
            &&& iswc_format(w.iswc@) is Ok
            &&& w.title@.len() > 0
            &&& (w.creation_year matches Some(y) ==> 1 <= y <= 2999)
            &&& (w.bpm matches Some(b) ==> 20 <= b <= 300)
            &&& w.creators@.len() > 0
            &&& forall|k: int| 0 <= k < w.creators@.len() ==> !(#[trigger] w.creators@[k]).roles.spec_is_empty()
        },
{
    if musical_work_v1_check(w) is Ok {
        lemma_first_failure_ok_iff(0, w.creators@.len() as int, creator_rule(w.creators@));
        assert forall|k: int| 0 <= k < w.creators@.len() implies !(#[trigger] w.creators@[k]).roles.spec_is_empty() by {
            assert(creator_rule(w.creators@)(k) is Ok);
        }
    }
}

} // verus!
