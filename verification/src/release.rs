//! The `Release` payload (first on-chain version) and its parts.
use vstd::prelude::*;

use crate::bounded::{Bounded, MiddsString};
use crate::country::Country;
use crate::format_error::MiddsFormatError;
use crate::identifier::{
    isni_format, offchain_hash_format, offchain_opt_check, upc_format, validate_isni_format,
    validate_offchain_hash, validate_upc_format, Isni, OffchainHash, Upc,
};
use crate::lists::{parties_check, texts_check, validate_parties, validate_texts};
use crate::midds::Midds;
use crate::scan::{
    first_failure, lemma_first_failure_all_ok, lemma_first_failure_at, lemma_first_failure_ok_iff,
    then_check,
};
use crate::shared::{
    non_empty_check, party_id_check, recording_ref_check, require_non_empty, same_recording_ref,
    PartyId, RecordingRef, Title,
};

verus! {

/// Maximum number of alternative / localized titles on a release.
pub const TITLE_ALIASES_MAX: u32 = 8;

/// Maximum number of featured artists credited on the release.
pub const FEATURING_MAX: u32 = 16;

/// Maximum number of recordings (tracks) referenced by a release.
pub const TRACKS_MAX: u32 = 256;

/// Maximum number of producers / labels credited on a release.
pub const PRODUCERS_MAX: u32 = 16;

/// Maximum number of cover-artwork contributors credited.
pub const COVER_CONTRIBUTORS_MAX: u32 = 16;

/// Maximum byte length of a label / release catalog number.
pub const CATALOG_NUMBER_MAX_LEN: u32 = 32;

/// Maximum byte length of the distributor name.
pub const DISTRIBUTOR_NAME_MAX_LEN: u32 = 128;

/// Maximum byte length of one cover-contributor name.
pub const COVER_CONTRIBUTOR_NAME_MAX_LEN: u32 = 128;

/// Alternative / localized titles for the release.
pub type TitleAliases = Bounded<Title, 8>;

/// Featured artists credited on the release.
pub type Featuring = Bounded<PartyId, 16>;

/// Ordered tracklist.
pub type Tracks = Bounded<Track, 256>;

/// A label / release catalog number.
pub type CatalogNumber = MiddsString<32>;

/// Producers credited on the release, each with their own catalog number.
pub type Producers = Bounded<Producer, 16>;

/// Free-text distributor name.
pub type DistributorName = MiddsString<128>;

/// One cover-artwork contributor's name.
pub type CoverContributorName = MiddsString<128>;

/// Cover-artwork contributor names.
pub type CoverContributors = Bounded<CoverContributorName, 16>;

/// A numbered tracklist entry. Across a tracklist the numbers must be
/// exactly `1, 2, …, N` (in any order) and no recording may appear twice.
#[derive(Debug, Clone, PartialEq, Eq)]
pub struct Track {
    /// 1-based track number.
    pub number: u16,
    /// The recording this track points to.
    pub recording: RecordingRef,
}

/// Outcome of the per-track rule: a positive number, a valid reference.
pub open spec fn track_check(t: Track) -> Result<(), MiddsFormatError> {
    if t.number == 0 {
        Err(MiddsFormatError::OutOfBounds)
    } else {
        recording_ref_check(t.recording)
    }
}

impl Track {
    /// Validates the entry: a positive track number and a well-formed
    /// recording reference.
    pub fn validate_format(&self) -> (r: Result<(), MiddsFormatError>)
        ensures
            r == track_check(*self),
    {
        if self.number == 0 {
            return Err(MiddsFormatError::OutOfBounds);
        }
        self.recording.validate_format()
    }
}

/// A producer / label credited on the release, with the catalog number under
/// which it issued the release.
#[derive(Debug, Clone, PartialEq, Eq)]
pub struct Producer {
    /// ISNI of the producing label / person.
    pub isni: Isni,
    /// Catalog number under which this producer issued the release.
    pub catalog_number: CatalogNumber,
}

/// Outcome of the producer rule: a valid ISNI, then a non-empty catalog number.
pub open spec fn producer_check(p: Producer) -> Result<(), MiddsFormatError> {
    then_check(isni_format(p.isni@), non_empty_check(p.catalog_number@))
}

impl Producer {
    /// Validates the credit: a well-formed ISNI and a non-empty catalog number.
    pub fn validate_format(&self) -> (r: Result<(), MiddsFormatError>)
        ensures
            r == producer_check(*self),
    {
        validate_isni_format(self.isni.as_slice())?;
        require_non_empty(self.catalog_number.as_slice())
    }
}

/// Editorial status of a release.
#[derive(Clone, Copy, PartialEq, Eq, Debug, Structural)]
pub enum ReleaseStatus {
    /// Officially sanctioned release.
    Official,
    /// Promotional copy not sold to the public.
    Promotional,
    /// Unofficial / unsanctioned release.
    Bootleg,
    /// Placeholder for a release known to exist but not yet detailed.
    PseudoRelease,
    /// Officially released then pulled from distribution.
    Withdrawn,
    /// Announced then cancelled before release.
    Cancelled,
    /// Any status not captured above.
    Other,
}

/// Primary editorial type of a release.
#[derive(Clone, Copy, PartialEq, Eq, Debug, Structural)]
pub enum ReleaseType {
    Album,
    Single,
    Ep,
    Broadcast,
    Compilation,
    Soundtrack,
    Live,
    Remix,
    Mixtape,
    Demo,
    Other,
}

/// Physical or digital format the release is issued on.
#[derive(Clone, Copy, PartialEq, Eq, Debug, Structural)]
pub enum ReleaseFormat {
    Cd,
    Vinyl,
    Cassette,
    DigitalDownload,
    Streaming,
    Dvd,
    BluRay,
    Sacd,
    MiniDisc,
    ReelToReel,
    Other,
}

/// Physical packaging of the release.
#[derive(Clone, Copy, PartialEq, Eq, Debug, Structural)]
pub enum ReleasePackaging {
    /// No packaging (typically digital releases).
    NoPackaging,
    JewelCase,
    SlimJewelCase,
    Digipak,
    CardboardSleeve,
    Gatefold,
    KeepCase,
    Box,
    Other,
}

/// Calendar release date: month `1..=12`, day `1..=31`, year unconstrained.
/// A structural range check, not a calendar check (Feb-30 is accepted).
#[derive(Clone, Copy, PartialEq, Eq, Debug, Structural)]
pub struct ReleaseDate {
    /// Calendar year (unconstrained: announced releases stay representable).
    pub year: u16,
    /// Calendar month, `1..=12`.
    pub month: u8,
    /// Calendar day, `1..=31`.
    pub day: u8,
}

/// Outcome of the release-date rule.
pub open spec fn release_date_check(d: ReleaseDate) -> Result<(), MiddsFormatError> {
    if !(1 <= d.month <= 12) || !(1 <= d.day <= 31) {
        Err(MiddsFormatError::OutOfBounds)
    } else {
        Ok(())
    }
}

impl ReleaseDate {
    /// Validates the structural month / day ranges.
    pub fn validate_format(&self) -> (r: Result<(), MiddsFormatError>)
        ensures
            r == release_date_check(*self),
    {
        if !(1 <= self.month && self.month <= 12) || !(1 <= self.day && self.day <= 31) {
            return Err(MiddsFormatError::OutOfBounds);
        }
        Ok(())
    }
}

/// First on-chain version of a `Release`.
#[derive(Debug, Clone, PartialEq, Eq)]
pub struct ReleaseV1 {
    /// Canonical UPC / EAN barcode — the uniqueness-index key.
    pub upc: Upc,
    /// Primary title (mandatory, non-empty).
    pub title: Title,
    /// Alternative / localized titles; each must be non-empty.
    pub title_aliases: TitleAliases,
    /// Main credited artist.
    pub artist: PartyId,
    /// Featured artists.
    pub featuring: Featuring,
    /// Ordered tracklist (non-empty; numbers must cover `1..=N`).
    pub tracks: Tracks,
    /// Producers / labels credited.
    pub producers: Producers,
    /// Editorial status.
    pub status: ReleaseStatus,
    /// Calendar release date.
    pub release_date: ReleaseDate,
    /// Country the release was issued in.
    pub country: Country,
    /// Distributor name (mandatory, non-empty).
    pub distributor_name: DistributorName,
    /// Primary editorial type.
    pub release_type: ReleaseType,
    /// Physical or digital medium.
    pub format: ReleaseFormat,
    /// Physical packaging.
    pub packaging: ReleasePackaging,
    /// Cover-artwork contributor names; each must be non-empty.
    pub cover_contributors: CoverContributors,
    /// Off-chain extension hash.
    pub offchain_extension: Option<OffchainHash>,
}

/// Rule of track `i`: the per-track rule, then no earlier track with the
/// same recording.
pub open spec fn track_entry_check(s: Seq<Track>, i: int) -> Result<(), MiddsFormatError> {
    if track_check(s[i]) is Err {
        track_check(s[i])
    } else if exists|j: int| 0 <= j < i && same_recording_ref(s[j].recording, s[i].recording) {
        Err(MiddsFormatError::CrossFieldInconsistency)
    } else {
        Ok(())
    }
}

/// Rule of each track.
pub open spec fn track_rule(s: Seq<Track>) -> spec_fn(int) -> Result<(), MiddsFormatError> {
    |i: int| track_entry_check(s, i)
}

/// The track numbers are each in `1..=N` and pairwise distinct.
pub open spec fn numbering_is_contiguous(s: Seq<Track>) -> bool {
    &&& forall|i: int| 0 <= i < s.len() ==> 1 <= #[trigger] s[i].number <= s.len()
    &&& forall|i: int, j: int| 0 <= i < j < s.len() ==> s[i].number != s[j].number
}

/// Outcome of the tracklist rule: non-empty, each track in order, then the
/// numbering.
pub open spec fn tracks_check(s: Seq<Track>) -> Result<(), MiddsFormatError> {
    if s.len() == 0 {
        Err(MiddsFormatError::EmptyMandatoryField)
    } else if first_failure(0, s.len() as int, track_rule(s)) is Err {
        first_failure(0, s.len() as int, track_rule(s))
    } else if !numbering_is_contiguous(s) {
        Err(MiddsFormatError::CrossFieldInconsistency)
    } else {
        Ok(())
    }
}

/// Rule of each producer.
pub open spec fn producer_rule(s: Seq<Producer>) -> spec_fn(int) -> Result<(), MiddsFormatError> {
    |i: int| producer_check(s[i])
}

/// Outcome of validating every producer in order.
pub open spec fn producers_check(s: Seq<Producer>) -> Result<(), MiddsFormatError> {
    first_failure(0, s.len() as int, producer_rule(s))
}

/// Outcome of every structural rule of a `ReleaseV1`, in rule order.
pub open spec fn release_v1_check(r: ReleaseV1) -> Result<(), MiddsFormatError> {
    then_check(
        upc_format(r.upc@),
        then_check(
            non_empty_check(r.title@),
            then_check(
                texts_check(r.title_aliases@),
                then_check(
                    party_id_check(r.artist),
                    then_check(
                        parties_check(r.featuring@),
                        then_check(
                            tracks_check(r.tracks@),
                            then_check(
                                producers_check(r.producers@),
                                then_check(
                                    release_date_check(r.release_date),
                                    then_check(
                                        non_empty_check(r.distributor_name@),
                                        then_check(
                                            texts_check(r.cover_contributors@),
                                            offchain_opt_check(r.offchain_extension),
                                        ),
                                    ),
                                ),
                            ),
                        ),
                    ),
                ),
            ),
        ),
    )
}

/// Whether track `i` points to the same recording as an earlier track.
fn recording_repeats_earlier(s: &Tracks, i: usize) -> (r: bool)
    requires
        i < s@.len(),
    ensures
        r == exists|j: int| 0 <= j < i && same_recording_ref(s@[j].recording, s@[i as int].recording),
{
    let cur = s.get(i);
    let mut j: usize = 0;
    while j < i
        invariant
            i < s@.len(),
            *cur == s@[i as int],
            j <= i,
            forall|k: int| 0 <= k < j ==> !same_recording_ref(s@[k].recording, s@[i as int].recording),
        decreases i - j,
    {
        if s.get(j).recording.same_as(&cur.recording) {
            return true;
        }
        j += 1;
    }
    false
}

/// Checks that the track numbers are each in `1..=N` and pairwise distinct.
fn numbering_ok(s: &Tracks) -> (r: bool)
    requires
        forall|i: int| 0 <= i < s@.len() ==> #[trigger] s@[i].number >= 1,
    ensures
        r == numbering_is_contiguous(s@),
{
    let n = s.len();
    let mut seen: Vec<bool> = vec![false; n];
    let mut i: usize = 0;
    while i < n
        invariant
            n == s@.len(),
            i <= n,
            seen@.len() == n,
            forall|k: int| 0 <= k < s@.len() ==> #[trigger] s@[k].number >= 1,
            forall|k: int| 0 <= k < i ==> 1 <= #[trigger] s@[k].number <= n,
            forall|a: int, b: int| 0 <= a < b < i ==> s@[a].number != s@[b].number,
            forall|m: int|
                0 <= m < n ==> (#[trigger] seen@[m] <==> exists|k: int|
                    0 <= k < i && s@[k].number == m + 1),
        decreases n - i,
    {
        let num = s.get(i).number;
        let idx = (num - 1) as usize;
        if idx >= n {
            assert(!(1 <= s@[i as int].number <= n));
            return false;
        }
        if seen[idx] {
            let ghost k = choose|k: int| 0 <= k < i && s@[k].number == idx + 1;
            assert(s@[k].number == s@[i as int].number);
            return false;
        }
        seen.set(idx, true);
        proof {
            assert forall|m: int| 0 <= m < n implies (#[trigger] seen@[m] <==> exists|k: int|
                0 <= k < i + 1 && s@[k].number == m + 1) by {
                if m == idx {
                    assert(s@[i as int].number == m + 1);
                } else {
                    if exists|k: int| 0 <= k < i + 1 && s@[k].number == m + 1 {
                        let k = choose|k: int| 0 <= k < i + 1 && s@[k].number == m + 1;
                        assert(k != i);
                    }
                }
            }
            assert forall|a: int, b: int| 0 <= a < b < i + 1 implies s@[a].number != s@[b].number by {
                if b == i {
                    if s@[a].number == s@[b].number {
                        assert(seen@[idx as int] == false);
                        assert(exists|k: int| 0 <= k < i && s@[k].number == idx + 1);
                    }
                }
            }
        }
        i += 1;
    }
    true
}

/// Validates the tracklist: non-empty, per-track rules in order, recording
/// uniqueness, then the numbering.
fn validate_tracks(s: &Tracks) -> (r: Result<(), MiddsFormatError>)
    ensures
        r == tracks_check(s@),
{
    let n = s.len();
    if n == 0 {
        return Err(MiddsFormatError::EmptyMandatoryField);
    }
    let ghost f = track_rule(s@);
    let mut i: usize = 0;
    while i < n
        invariant
            n == s@.len(),
            n > 0,
            i <= n,
            f == track_rule(s@),
            forall|j: int| 0 <= j < i ==> #[trigger] f(j) is Ok,
        decreases n - i,
    {
        let t = s.get(i);
        let r = t.validate_format();
        if r.is_err() {
            proof {
                lemma_first_failure_at(0, n as int, i as int, f);
            }
            return r;
        }
        if recording_repeats_earlier(s, i) {
            proof {
                lemma_first_failure_at(0, n as int, i as int, f);
            }
            return Err(MiddsFormatError::CrossFieldInconsistency);
        }
        assert(f(i as int) is Ok);
        i += 1;
    }
    proof {
        lemma_first_failure_all_ok(0, n as int, f);
        assert forall|k: int| 0 <= k < s@.len() implies #[trigger] s@[k].number >= 1 by {
            assert(f(k) is Ok);
        }
    }
    if !numbering_ok(s) {
        return Err(MiddsFormatError::CrossFieldInconsistency);
    }
    Ok(())
}

/// Validates every producer of `list`; reports the first failure.
fn validate_producers(list: &Producers) -> (r: Result<(), MiddsFormatError>)
    ensures
        r == producers_check(list@),
{
    let n = list.len();
    let ghost f = producer_rule(list@);
    let mut i: usize = 0;
    while i < n
        invariant
            n == list@.len(),
            i <= n,
            f == producer_rule(list@),
            forall|j: int| 0 <= j < i ==> #[trigger] f(j) is Ok,
        decreases n - i,
    {
        let r = list.get(i).validate_format();
        if r.is_err() {
            proof {
                lemma_first_failure_at(0, n as int, i as int, f);
            }
            return r;
        }
        i += 1;
    }
    proof {
        lemma_first_failure_all_ok(0, n as int, f);
    }
    Ok(())
}

impl ReleaseV1 {
    /// Validates every structural rule of the payload (charset, length,
    /// ranges, cardinality, tracklist invariants); the error is the one of
    /// the first violated rule.
    pub fn validate_format(&self) -> (r: Result<(), MiddsFormatError>)
        ensures
            r == release_v1_check(*self),
    {
        validate_upc_format(self.upc.as_slice())?;
        require_non_empty(self.title.as_slice())?;
        validate_texts(&self.title_aliases)?;
        self.artist.validate_format()?;
        validate_parties(&self.featuring)?;
        validate_tracks(&self.tracks)?;
        validate_producers(&self.producers)?;
        self.release_date.validate_format()?;
        require_non_empty(self.distributor_name.as_slice())?;
        validate_texts(&self.cover_contributors)?;
        if let Some(h) = &self.offchain_extension {
            validate_offchain_hash(h.as_slice())?;
        }
        Ok(())
    }
}

/// Top-level versioned `Release`.
#[derive(Debug, Clone, PartialEq, Eq)]
pub enum Release {
    V1(ReleaseV1),
}

impl Midds for Release {
    const KIND: &'static str = "Release";

    type Identifier = Upc;

    open spec fn identifier_spec(&self) -> Upc {
        match self {
            Release::V1(v) => v.upc,
        }
    }

    open spec fn format_rules(&self) -> Result<(), MiddsFormatError> {
        match self {
            Release::V1(v) => release_v1_check(*v),
        }
    }

    fn identifier(&self) -> (r: &Upc) {
        match self {
            Release::V1(v) => &v.upc,
        }
    }

    fn validate_format(&self) -> (r: Result<(), MiddsFormatError>) {
        match self {
            Release::V1(v) => v.validate_format(),
        }
    }
}

/// The tracklist rule stated without regard to order: at least one track,
/// each track well-formed, no two tracks on the same recording, and numbers
/// in `1..=N`, pairwise distinct.
pub open spec fn tracks_valid(s: Seq<Track>) -> bool {
    &&& s.len() > 0
    &&& forall|i: int| 0 <= i < s.len() ==> #[trigger] track_check(s[i]) is Ok
    &&& forall|i: int, j: int|
        0 <= i < s.len() && 0 <= j < s.len() && i != j ==> !same_recording_ref(
            #[trigger] s[i].recording,
            #[trigger] s[j].recording,
        )
    &&& forall|i: int| 0 <= i < s.len() ==> 1 <= #[trigger] s[i].number <= s.len()
    &&& forall|i: int, j: int|
        0 <= i < s.len() && 0 <= j < s.len() && i != j ==> (#[trigger] s[i]).number != (
        #[trigger] s[j]).number
}

/// The tracklist rule passes exactly when the tracklist is valid in the
/// order-free sense of `tracks_valid`.
pub proof fn lemma_tracks_check_ok(s: Seq<Track>)
    ensures
        tracks_check(s) is Ok <==> tracks_valid(s),
{
    let n = s.len() as int;
    lemma_first_failure_ok_iff(0, n, track_rule(s));
    if tracks_check(s) is Ok {
        assert forall|i: int, j: int|
            0 <= i < n && 0 <= j < n && i != j implies !same_recording_ref(
            #[trigger] s[i].recording,
            #[trigger] s[j].recording,
        ) by {
            if i < j {
                assert(track_rule(s)(j) is Ok);
                if same_recording_ref(s[i].recording, s[j].recording) {
                    assert(same_recording_ref(s[i].recording, s[j].recording));
                }
            } else {
                assert(track_rule(s)(i) is Ok);
                if same_recording_ref(s[i].recording, s[j].recording) {
                    assert(same_recording_ref(s[j].recording, s[i].recording));
                }
            }
        }
        assert forall|i: int| 0 <= i < n implies #[trigger] track_check(s[i]) is Ok by {
            assert(track_rule(s)(i) is Ok);
        }
        assert forall|i: int, j: int|
            0 <= i < n && 0 <= j < n && i != j implies (#[trigger] s[i]).number != (
            #[trigger] s[j]).number by {
            if i > j {
                assert(s[j].number != s[i].number);
            }
        }
    }
    if tracks_valid(s) {
        assert forall|i: int| 0 <= i < n implies #[trigger] track_rule(s)(i) is Ok by {
            assert(track_check(s[i]) is Ok);
            assert forall|j: int| 0 <= j < i implies !same_recording_ref(
                s[j].recording,
                s[i].recording,
            ) by {
                assert(!same_recording_ref(s[j].recording, s[i].recording));
            }
        }
    }
}

/// Validity carries over to a tracklist whose track `i` is track `p[i]` of
/// `s1`, for an injective `p`.
proof fn lemma_tracks_valid_reindexed(s1: Seq<Track>, s2: Seq<Track>, p: Seq<int>)
    requires
        tracks_valid(s1),
        s2.len() == s1.len(),
        p.len() == s1.len(),
        forall|i: int| 0 <= i < s2.len() ==> 0 <= #[trigger] p[i] < s1.len() && s2[i] == s1[p[i]],
        forall|i: int, j: int| 0 <= i < p.len() && 0 <= j < p.len() && i != j ==> #[trigger] p[i] != #[trigger] p[j],
    ensures
        tracks_valid(s2),
{
    let n = s2.len() as int;
    assert forall|i: int| 0 <= i < n implies #[trigger] track_check(s2[i]) is Ok by {
        assert(track_check(s1[p[i]]) is Ok);
    }
    assert forall|i: int| 0 <= i < n implies 1 <= #[trigger] s2[i].number <= n by {
        assert(1 <= s1[p[i]].number <= n);
    }
    assert forall|i: int, j: int|
        0 <= i < n && 0 <= j < n && i != j implies !same_recording_ref(
        #[trigger] s2[i].recording,
        #[trigger] s2[j].recording,
    ) by {
        assert(p[i] != p[j]);
        assert(!same_recording_ref(s1[p[i]].recording, s1[p[j]].recording));
    }
    assert forall|i: int, j: int|
        0 <= i < n && 0 <= j < n && i != j implies (#[trigger] s2[i]).number != (
        #[trigger] s2[j]).number by {
        assert(p[i] != p[j]);
        assert(s1[p[i]].number != s1[p[j]].number);
    }
}

/// Reordering the tracklist does not change whether a release passes the
/// structural rules: for two releases equal but for their tracks, where the
/// tracks of `r2` are those of `r1` permuted by `p` (with inverse `q`), one
/// passes `validate_format` exactly when the other does.
pub proof fn lemma_release_valid_under_track_permutation(
    r1: ReleaseV1,
    r2: ReleaseV1,
    p: Seq<int>,
    q: Seq<int>,
)
    requires
        r2 == (ReleaseV1 { tracks: r2.tracks, ..r1 }),
        r2.tracks@.len() == r1.tracks@.len(),
        p.len() == r1.tracks@.len(),
        q.len() == r1.tracks@.len(),
        forall|i: int|
            0 <= i < p.len() ==> 0 <= #[trigger] p[i] < p.len() && q[p[i]] == i && r2.tracks@[i]
                == r1.tracks@[p[i]],
        forall|i: int| 0 <= i < q.len() ==> 0 <= #[trigger] q[i] < q.len() && p[q[i]] == i,
    ensures
        release_v1_check(r1) is Ok <==> release_v1_check(r2) is Ok,
{
    let s1 = r1.tracks@;
    let s2 = r2.tracks@;
    lemma_tracks_check_ok(s1);
    lemma_tracks_check_ok(s2);
    assert forall|i: int, j: int| 0 <= i < p.len() && 0 <= j < p.len() && i != j implies #[trigger] p[i] != #[trigger] p[j] by {
        if p[i] == p[j] {
            assert(q[p[i]] == i);
            assert(q[p[j]] == j);
        }
    }
    assert forall|i: int, j: int| 0 <= i < q.len() && 0 <= j < q.len() && i != j implies #[trigger] q[i] != #[trigger] q[j] by {
        if q[i] == q[j] {
            assert(p[q[i]] == i);
            assert(p[q[j]] == j);
        }
    }
    assert forall|i: int| 0 <= i < s1.len() implies 0 <= #[trigger] q[i] < s2.len() && s1[i] == s2[q[i]] by {
        assert(p[q[i]] == i);
        assert(s2[q[i]] == s1[p[q[i]]]);
    }
    if tracks_valid(s1) {
        lemma_tracks_valid_reindexed(s1, s2, p);
    }
    if tracks_valid(s2) {
        lemma_tracks_valid_reindexed(s2, s1, q);
    }
}

} // verus!
