//! `Recording` fixtures: a builder over already-bounded inputs and seeded
//! random generation.
use vstd::prelude::*;
use vstd::slice::slice_to_vec;

use crate::bounded::Bounded;
use crate::fixtures::identifiers::{
    ipi_from_stem, ipi_random, isni_random, isrc_for, isrc_for_index, iswc_for_index,
    iswc_from_work_code,
};
use crate::fixtures::{alphabet_text, random_party_id, random_text};
use crate::fixtures::draws::{genre_draw, isni_draw, party_draw, party_view, performer_draw, performer_view, recording_draw, recording_drawn, version_draw, work_ref_draw, work_ref_view};
use crate::fixtures::rng::{repeat, rng_bool, rng_draw, rng_word, FixtureRng};
use crate::identifier::{Isni, Isrc, OffchainHash};
use crate::lists::{isni_rule, party_rule, text_rule};
use crate::midds::Midds;
use crate::recording::{
    performer_check, performer_rule, recording_v1_check, Genre, Performer, Place,
    ProductionPlaces, Recording, RecordingV1, RecordingVersion,
};
use crate::scan::lemma_first_failure_all_ok;
use crate::fixtures::MiddsFixtures;
use crate::fixtures::pathological::{max_size_recording, min_size_recording, recording_saturated};
use crate::shared::{
    party_id_check, performer_id_check, Mode, MusicalKey, PartyId, PerformerId, PitchClass,
    WorkRef,
};

verus! {

/// Fluent builder over already-canonical inputs. Test-ergonomic: it takes
/// bounded values and its callers keep them within the bounds.
#[derive(Debug, Clone)]
pub struct RecordingBuilder {
    draft: RecordingV1,
}

impl View for RecordingBuilder {
    type V = RecordingV1;

    /// The payload `build` returns.
    closed spec fn view(&self) -> RecordingV1 {
        self.draft
    }
}

/// `bytes` as a bounded string of capacity `N` (`bytes` fits).
fn bounded_bytes<const N: u32>(bytes: &[u8]) -> (r: Bounded<u8, N>)
    requires
        bytes@.len() <= N,
    ensures
        r@ == bytes@,
{
    match Bounded::try_new(slice_to_vec(bytes)) {
        Ok(v) => v,
        Err(_) => Bounded::new(),
    }
}

/// Whether every list rule of an empty-collection recording passes.
proof fn lemma_empty_lists(v: RecordingV1)
    requires
        v.title_aliases@.len() == 0,
        v.featuring@.len() == 0,
        v.performers@.len() == 0,
        v.producers@.len() == 0,
        v.contributors@.len() == 0,
    ensures
        crate::lists::texts_check(v.title_aliases@) is Ok,
        crate::lists::parties_check(v.featuring@) is Ok,
        crate::recording::performers_check(v.performers@) is Ok,
        crate::lists::isnis_check(v.producers@) is Ok,
        crate::lists::parties_check(v.contributors@) is Ok,
{
    lemma_first_failure_all_ok(0, 0, text_rule(v.title_aliases@));
    lemma_first_failure_all_ok(0, 0, party_rule(v.featuring@));
    lemma_first_failure_all_ok(0, 0, performer_rule(v.performers@));
    lemma_first_failure_all_ok(0, 0, isni_rule(v.producers@));
    lemma_first_failure_all_ok(0, 0, party_rule(v.contributors@));
}

impl RecordingBuilder {
    /// Builder with valid defaults: the ISRC of index 0, the title
    /// `Untitled Recording`, an IPI artist with a checksum-correct synthetic
    /// code and the work referenced by the ISWC of index 0. Building it
    /// gives a payload that passes `validate_format`.
    pub fn new() -> (r: Self)
        ensures
            r@.isrc@ == isrc_for(0),
            r@.title@.len() == 18,
            r@.title_aliases@.len() == 0,
            r@.featuring@.len() == 0,
            r@.genre is None && r@.sub_genre is None,
            r@.record_year is None && r@.version_type is None,
            r@.performers@.len() == 0 && r@.producers@.len() == 0,
            r@.duration is None && r@.bpm is None && r@.key is None,
            r@.places is None,
            r@.contributors@.len() == 0,
            r@.offchain_extension is None,
            recording_v1_check(r@) is Ok,
    {
        // "Untitled Recording"
        let title = bounded_bytes::<256>(
            &[85, 110, 116, 105, 116, 108, 101, 100, 32, 82, 101, 99, 111, 114, 100, 105, 110, 103],
        );
        let draft = RecordingV1 {
            isrc: isrc_for_index(0),
            title,
            title_aliases: Bounded::new(),
            artist: PartyId::Ipi(ipi_from_stem(123_456_789, 9)),
            featuring: Bounded::new(),
            work: WorkRef::Iswc(iswc_for_index(0)),
            genre: None,
            sub_genre: None,
            record_year: None,
            version_type: None,
            performers: Bounded::new(),
            producers: Bounded::new(),
            duration: None,
            bpm: None,
            key: None,
            places: None,
            contributors: Bounded::new(),
            offchain_extension: None,
        };
        proof {
            lemma_empty_lists(draft);
        }
        RecordingBuilder { draft }
    }

    /// Overrides the canonical identifier.
    pub fn isrc(self, isrc: Isrc) -> (r: Self)
        ensures
            r@ == (RecordingV1 { isrc, ..self@ }),
    {
        let mut b = self;
        b.draft.isrc = isrc;
        b
    }

    /// Overrides the title (at most 256 bytes).
    pub fn title(self, bytes: &[u8]) -> (r: Self)
        requires
            bytes@.len() <= 256,
        ensures
            r@ == (RecordingV1 { title: r@.title, ..self@ }),
            r@.title@ == bytes@,
    {
        let mut b = self;
        b.draft.title = bounded_bytes::<256>(bytes);
        b
    }

    /// Appends an alternative title (at most 256 bytes, at most 8 aliases).
    pub fn add_title_alias(self, bytes: &[u8]) -> (r: Self)
        requires
            bytes@.len() <= 256,
            self@.title_aliases@.len() < 8,
        ensures
            r@ == (RecordingV1 { title_aliases: r@.title_aliases, ..self@ }),
            r@.title_aliases@.len() == self@.title_aliases@.len() + 1,
            r@.title_aliases@.drop_last() == self@.title_aliases@,
            r@.title_aliases@.last()@ == bytes@,
    {
        let mut b = self;
        let alias = bounded_bytes::<256>(bytes);
        let _ = b.draft.title_aliases.try_push(alias);
        assert(b@.title_aliases@.drop_last() =~= self@.title_aliases@);
        b
    }

    /// Sets the main artist.
    pub fn artist(self, artist: PartyId) -> (r: Self)
        ensures
            r@ == (RecordingV1 { artist, ..self@ }),
    {
        let mut b = self;
        b.draft.artist = artist;
        b
    }

    /// Sets the recorded work.
    pub fn work(self, work: WorkRef) -> (r: Self)
        ensures
            r@ == (RecordingV1 { work, ..self@ }),
    {
        let mut b = self;
        b.draft.work = work;
        b
    }

    /// Sets the genres from a list of at most two: the first is the primary
    /// genre, the second the sub-genre.
    pub fn genres_unchecked(self, genres: Vec<Genre>) -> (r: Self)
        requires
            genres@.len() <= 2,
        ensures
            r@ == (RecordingV1 {
                genre: if genres@.len() >= 1 {
                    Some(genres@[0])
                } else {
                    None
                },
                sub_genre: if genres@.len() >= 2 {
                    Some(genres@[1])
                } else {
                    None
                },
                ..self@
            }),
    {
        let mut b = self;
        b.draft.genre = if genres.len() >= 1 {
            Some(genres[0])
        } else {
            None
        };
        b.draft.sub_genre = if genres.len() >= 2 {
            Some(genres[1])
        } else {
            None
        };
        b
    }

    /// Sets the recording year.
    pub fn record_year(self, year: u16) -> (r: Self)
        ensures
            r@ == (RecordingV1 { record_year: Some(year), ..self@ }),
    {
        let mut b = self;
        b.draft.record_year = Some(year);
        b
    }

    /// Sets the editorial version.
    pub fn version_type(self, version: RecordingVersion) -> (r: Self)
        ensures
            r@ == (RecordingV1 { version_type: Some(version), ..self@ }),
    {
        let mut b = self;
        b.draft.version_type = Some(version);
        b
    }

    /// Replaces the performers (at most 64).
    pub fn performers_unchecked(self, performers: Vec<Performer>) -> (r: Self)
        requires
            performers@.len() <= 64,
        ensures
            r@ == (RecordingV1 { performers: r@.performers, ..self@ }),
            r@.performers@ == performers@,
    {
        let mut b = self;
        if let Ok(p) = Bounded::try_new(performers) {
            b.draft.performers = p;
        }
        b
    }

    /// Replaces the producers (at most 8).
    pub fn producers_unchecked(self, producers: Vec<Isni>) -> (r: Self)
        requires
            producers@.len() <= 8,
        ensures
            r@ == (RecordingV1 { producers: r@.producers, ..self@ }),
            r@.producers@ == producers@,
    {
        let mut b = self;
        if let Ok(p) = Bounded::try_new(producers) {
            b.draft.producers = p;
        }
        b
    }

    /// Sets the length in seconds.
    pub fn duration(self, seconds: u32) -> (r: Self)
        ensures
            r@ == (RecordingV1 { duration: Some(seconds), ..self@ }),
    {
        let mut b = self;
        b.draft.duration = Some(seconds);
        b
    }

    /// Sets the tempo.
    pub fn bpm(self, bpm: u16) -> (r: Self)
        ensures
            r@ == (RecordingV1 { bpm: Some(bpm), ..self@ }),
    {
        let mut b = self;
        b.draft.bpm = Some(bpm);
        b
    }

    /// Sets the key.
    pub fn key(self, key: MusicalKey) -> (r: Self)
        ensures
            r@ == (RecordingV1 { key: Some(key), ..self@ }),
    {
        let mut b = self;
        b.draft.key = Some(key);
        b
    }

    /// Attaches production places (each at most 128 bytes).
    pub fn places(self, recording: Option<&[u8]>, mixing: Option<&[u8]>, mastering: Option<&[u8]>) -> (r:
        Self)
        requires
            recording matches Some(p) ==> p@.len() <= 128,
            mixing matches Some(p) ==> p@.len() <= 128,
            mastering matches Some(p) ==> p@.len() <= 128,
        ensures
            r@ == (RecordingV1 { places: r@.places, ..self@ }),
            r@.places matches Some(pp) && (match recording {
                Some(p) => pp.recording matches Some(x) && x@ == p@,
                None => pp.recording is None,
            }) && (match mixing {
                Some(p) => pp.mixing matches Some(x) && x@ == p@,
                None => pp.mixing is None,
            }) && (match mastering {
                Some(p) => pp.mastering matches Some(x) && x@ == p@,
                None => pp.mastering is None,
            }),
    {
        let mut b = self;
        let recording: Option<Place> = match recording {
            Some(p) => Some(bounded_bytes::<128>(p)),
            None => None,
        };
        let mixing: Option<Place> = match mixing {
            Some(p) => Some(bounded_bytes::<128>(p)),
            None => None,
        };
        let mastering: Option<Place> = match mastering {
            Some(p) => Some(bounded_bytes::<128>(p)),
            None => None,
        };
        b.draft.places = Some(ProductionPlaces { recording, mixing, mastering });
        b
    }

    /// Replaces the contributors (at most 32).
    pub fn contributors_unchecked(self, contributors: Vec<PartyId>) -> (r: Self)
        requires
            contributors@.len() <= 32,
        ensures
            r@ == (RecordingV1 { contributors: r@.contributors, ..self@ }),
            r@.contributors@ == contributors@,
    {
        let mut b = self;
        if let Ok(c) = Bounded::try_new(contributors) {
            b.draft.contributors = c;
        }
        b
    }

    /// Sets the off-chain extension hash (at most 64 bytes).
    pub fn offchain_extension(self, bytes: &[u8]) -> (r: Self)
        requires
            bytes@.len() <= 64,
        ensures
            r@ == (RecordingV1 { offchain_extension: r@.offchain_extension, ..self@ }),
            r@.offchain_extension matches Some(h) && h@ == bytes@,
    {
        let mut b = self;
        b.draft.offchain_extension = Some(bounded_bytes::<64>(bytes));
        b
    }

    /// Finalises into a `Recording::V1`. Does not validate.
    pub fn build(self) -> (r: Recording)
        ensures
            r == Recording::V1(self@),
    {
        Recording::V1(self.draft)
    }
}

/// The pool `pick_genre` draws from: the ten common genres, by position.
pub open spec fn genre_pool(k: int) -> Genre {
    if k == 0 {
        Genre::Pop
    } else if k == 1 {
        Genre::Rock
    } else if k == 2 {
        Genre::HipHop
    } else if k == 3 {
        Genre::RnB
    } else if k == 4 {
        Genre::Electronic
    } else if k == 5 {
        Genre::Jazz
    } else if k == 6 {
        Genre::Classical
    } else if k == 7 {
        Genre::Folk
    } else if k == 8 {
        Genre::Soul
    } else {
        Genre::Other
    }
}

/// A uniformly random genre among ten common ones.
fn pick_genre(rng: &mut FixtureRng) -> (r: Genre)
    ensures
        exists|k: int| 0 <= k < 10 && r == #[trigger] genre_pool(k),
        (r, final(rng)@) == genre_draw(old(rng)@),
{
    let k = rng_draw(rng, 0, 9);
    let r = if k == 0 {
        Genre::Pop
    } else if k == 1 {
        Genre::Rock
    } else if k == 2 {
        Genre::HipHop
    } else if k == 3 {
        Genre::RnB
    } else if k == 4 {
        Genre::Electronic
    } else if k == 5 {
        Genre::Jazz
    } else if k == 6 {
        Genre::Classical
    } else if k == 7 {
        Genre::Folk
    } else if k == 8 {
        Genre::Soul
    } else {
        Genre::Other
    };
    assert(r == genre_pool(k as int));
    r
}

/// The pool `pick_version` draws from: the six common editorial versions, by position.
pub open spec fn version_pool(k: int) -> RecordingVersion {
    if k == 0 {
        RecordingVersion::Original
    } else if k == 1 {
        RecordingVersion::RadioEdit
    } else if k == 2 {
        RecordingVersion::Extended
    } else if k == 3 {
        RecordingVersion::Live
    } else if k == 4 {
        RecordingVersion::Acoustic
    } else {
        RecordingVersion::Remix
    }
}

/// A uniformly random editorial version among six common ones.
fn pick_version(rng: &mut FixtureRng) -> (r: RecordingVersion)
    ensures
        exists|k: int| 0 <= k < 6 && r == #[trigger] version_pool(k),
        (r, final(rng)@) == version_draw(old(rng)@),
{
    let k = rng_draw(rng, 0, 5);
    let r = if k == 0 {
        RecordingVersion::Original
    } else if k == 1 {
        RecordingVersion::RadioEdit
    } else if k == 2 {
        RecordingVersion::Extended
    } else if k == 3 {
        RecordingVersion::Live
    } else if k == 4 {
        RecordingVersion::Acoustic
    } else {
        RecordingVersion::Remix
    };
    assert(r == version_pool(k as int));
    r
}

/// A random performer identified by an IPI or an ISNI (fair coin), with no
/// instrument listed.
fn random_performer(rng: &mut FixtureRng) -> (r: Performer)
    ensures
        performer_check(r) is Ok,
        (performer_view(r), final(rng)@) == performer_draw(old(rng)@),
{
    let id = if rng_bool(rng) {
        PerformerId::Ipi(ipi_random(rng))
    } else {
        PerformerId::Isni(isni_random(rng))
    };
    let r = Performer { id, instruments: Bounded::new() };
    assert(r.instruments@ =~= seq![]);
    r
}

/// A realistic `Recording` whose ISRC is derived from `index`, so that
/// indices `0..N` give distinct ISRCs (for `N <= 10^8`). Whatever the
/// random draws, the payload passes `validate_format`.
pub fn random_with_isrc_index(rng: &mut FixtureRng, index: u32) -> (r: Recording)
    ensures
        r.format_rules() is Ok,
        r.identifier_spec()@ == isrc_for(index as nat),
        recording_drawn(r, old(rng)@, index),
        final(rng)@ == recording_draw(old(rng)@).1,
        r matches Recording::V1(v) && {
            &&& alphabet_text(v.title@, 8, 64)
            &&& v.artist is Ipi || v.artist is Isni
            &&& v.title_aliases@.len() == 0 && v.featuring@.len() == 0
            &&& v.sub_genre is Some ==> v.genre is Some
            &&& v.performers@.len() <= 3 && v.producers@.len() <= 2
            &&& v.contributors@.len() <= 2
            &&& forall|k: int|
                0 <= k < v.contributors@.len() ==> (#[trigger] v.contributors@[k]) is Ipi
                    || v.contributors@[k] is Isni
            &&& v.record_year matches Some(y) && 1900 <= y <= 2025
            &&& v.version_type is Some
            &&& v.duration matches Some(d) && 30 <= d <= 600
            &&& v.bpm matches Some(b) && 40 <= b <= 240
            &&& v.key == Some(MusicalKey { pitch: PitchClass::C, mode: Mode::Major })
            &&& v.places is None && v.offchain_extension is None
        },
{
    let ghost s0 = rng@;
    let isrc = isrc_for_index(index);
    let title_len = rng_draw(rng, 8, 64);
    let title = random_text(rng, title_len as usize);
    let artist = random_party_id(rng);
    let ghost w0 = rng@;
    let work = if rng_bool(rng) {
        WorkRef::Iswc(iswc_from_work_code(rng_draw(rng, 0, u32::MAX)))
    } else {
        WorkRef::Midds(rng_word(rng))
    };
    assert((work_ref_view(work), rng@) == work_ref_draw(w0));
    let genre_count = rng_draw(rng, 0, 2);
    let ghost g0 = rng@;
    let mut genres: Vec<Genre> = Vec::new();
    let mut k: u32 = 0;
    while k < genre_count
        invariant
            k <= genre_count <= 2,
            genres@.len() == k,
            (genres@, rng@) == repeat(g0, k as nat, |x: (u64, nat)| genre_draw(x)),
        decreases genre_count - k,
    {
        genres.push(pick_genre(rng));
        k += 1;
    }
    let performer_count = rng_draw(rng, 0, 3);
    let ghost p0 = rng@;
    let mut performers: Vec<Performer> = Vec::new();
    let mut k: u32 = 0;
    while k < performer_count
        invariant
            k <= performer_count <= 3,
            performers@.len() == k,
            (performers@.map_values(|p: Performer| performer_view(p)), rng@) == repeat(
                p0,
                k as nat,
                |x: (u64, nat)| performer_draw(x),
            ),
            forall|j: int| 0 <= j < k ==> performer_check(#[trigger] performers@[j]) is Ok,
        decreases performer_count - k,
    {
        let ghost before = performers@;
        let p = random_performer(rng);
        performers.push(p);
        assert(performers@.map_values(|p: Performer| performer_view(p)) =~= before.map_values(
            |p: Performer| performer_view(p),
        ).push(performer_view(p)));
        k += 1;
    }
    let producer_count = rng_draw(rng, 0, 2);
    let ghost q0 = rng@;
    let mut producers: Vec<Isni> = Vec::new();
    let mut k: u32 = 0;
    while k < producer_count
        invariant
            k <= producer_count <= 2,
            producers@.len() == k,
            (producers@.map_values(|x: Isni| x@), rng@) == repeat(
                q0,
                k as nat,
                |x: (u64, nat)| isni_draw(x),
            ),
            forall|j: int| 0 <= j < k ==> crate::identifier::isni_format(#[trigger] producers@[j]@) is Ok,
        decreases producer_count - k,
    {
        let ghost before = producers@;
        let x = isni_random(rng);
        producers.push(x);
        assert(producers@.map_values(|x: Isni| x@) =~= before.map_values(|x: Isni| x@).push(x@));
        k += 1;
    }
    let contributor_count = rng_draw(rng, 0, 2);
    let ghost c0 = rng@;
    let mut contributors: Vec<PartyId> = Vec::new();
    let mut k: u32 = 0;
    while k < contributor_count
        invariant
            k <= contributor_count <= 2,
            contributors@.len() == k,
            (contributors@.map_values(|p: PartyId| party_view(p)), rng@) == repeat(
                c0,
                k as nat,
                |x: (u64, nat)| party_draw(x),
            ),
            forall|j: int|
                0 <= j < k ==> party_id_check(#[trigger] contributors@[j]) is Ok && (contributors@[j] is Ipi
                    || contributors@[j] is Isni),
        decreases contributor_count - k,
    {
        let ghost before = contributors@;
        let p = random_party_id(rng);
        contributors.push(p);
        assert(contributors@.map_values(|p: PartyId| party_view(p)) =~= before.map_values(
            |p: PartyId| party_view(p),
        ).push(party_view(p)));
        k += 1;
    }
    let record_year = rng_draw(rng, 1900, 2025) as u16;
    let version = pick_version(rng);
    let duration = rng_draw(rng, 30, 600);
    let bpm = rng_draw(rng, 40, 240) as u16;
    let ghost ps = performers@;
    let ghost prs = producers@;
    let ghost cs = contributors@;
    let b = RecordingBuilder::new().isrc(isrc).title(title.as_slice()).artist(artist).work(
        work,
    ).genres_unchecked(genres).record_year(record_year).version_type(version).performers_unchecked(
        performers,
    ).producers_unchecked(producers).duration(duration).bpm(bpm).key(
        MusicalKey { pitch: PitchClass::C, mode: Mode::Major },
    ).contributors_unchecked(contributors);
    let r = b.build();
    proof {
        let v = b@;
        assert forall|j: int| 0 <= j < v.performers@.len() implies #[trigger] performer_rule(
            v.performers@,
        )(j) is Ok by {
            assert(performer_check(ps[j]) is Ok);
        }
        lemma_first_failure_all_ok(0, v.performers@.len() as int, performer_rule(v.performers@));
        assert forall|j: int| 0 <= j < v.producers@.len() implies #[trigger] isni_rule(
            v.producers@,
        )(j) is Ok by {
            assert(crate::identifier::isni_format(prs[j]@) is Ok);
        }
        lemma_first_failure_all_ok(0, v.producers@.len() as int, isni_rule(v.producers@));
        assert forall|j: int| 0 <= j < v.contributors@.len() implies #[trigger] party_rule(
            v.contributors@,
        )(j) is Ok by {
            assert(party_id_check(cs[j]) is Ok);
        }
        lemma_first_failure_all_ok(0, v.contributors@.len() as int, party_rule(v.contributors@));
        lemma_first_failure_all_ok(0, 0, text_rule(v.title_aliases@));
        lemma_first_failure_all_ok(0, 0, party_rule(v.featuring@));
        assert(recording_v1_check(v) is Ok);
    }
    r
}

/// `recording` with its ISRC replaced by the one of `index`.
fn with_isrc(recording: Recording, index: u32) -> (r: Recording)
    ensures
        recording.format_rules() is Ok ==> r.format_rules() is Ok,
        r.identifier_spec()@ == isrc_for(index as nat),
        recording matches Recording::V1(a) && r matches Recording::V1(b) && b == (RecordingV1 {
            isrc: b.isrc,
            ..a
        }),
{
    let Recording::V1(mut v1) = recording;
    v1.isrc = isrc_for_index(index);
    Recording::V1(v1)
}

/// The `Recording` fixture set.
pub struct RecordingFixtures;

impl MiddsFixtures for RecordingFixtures {
    type Item = Recording;

    open spec fn identifier_bytes(id: Isrc) -> Seq<u8> {
        id@
    }

    open spec fn identifier_for_index(index: u32) -> Seq<u8> {
        isrc_for(index as nat)
    }

    open spec fn distinct_indices() -> nat {
        100_000_000
    }

    proof fn lemma_index_identifiers_distinct(a: u32, b: u32) {
        crate::fixtures::identifiers::lemma_isrc_for_index_injective(a, b);
    }

    /// The recordings `gen_n_recording` generates: valid, each the one the
    /// draws from `seed` produce for its index.
    fn gen_n(seed: u64, count: u32) -> (r: Vec<Recording>)
        ensures
            forall|i: int|
                0 <= i < count ==> (#[trigger] r@[i]).format_rules() is Ok && recording_drawn(
                    r@[i],
                    crate::fixtures::draws::recording_state(seed, i as nat),
                    i as u32,
                ),
    {
        crate::fixtures::gen_n_recording(seed, count)
    }

    /// The smallest and the saturated recording, in that order.
    fn pathological() -> (r: Vec<Recording>)
        ensures
            r@.len() == 2,
            r@[0] matches Recording::V1(v) && v.isrc@ == isrc_for(0) && v.title@.len() == 1
                && v.title_aliases@.len() == 0 && v.featuring@.len() == 0
                && v.performers@.len() == 0 && v.producers@.len() == 0
                && v.contributors@.len() == 0 && v.places is None
                && v.offchain_extension is None,
            r@[1] matches Recording::V1(v) && recording_saturated(v) && v.isrc@ == isrc_for(0),
    {
        let mut v: Vec<Recording> = Vec::new();
        v.push(min_size_recording());
        v.push(max_size_recording());
        v
    }

    /// The 32 recordings generated from a fixed seed; each passes
    /// `validate_format`.
    fn corpus() -> (r: Vec<Recording>)
        ensures
            r@.len() == 32,
            forall|i: int| 0 <= i < 32 ==> (#[trigger] r@[i]).format_rules() is Ok,
    {
        crate::fixtures::gen_n_recording(0xC0DE_C0DE_C0DE_C0DE, 32)
    }

    fn random_with_index(rng: &mut FixtureRng, index: u32) -> (r: Recording)
        ensures
            r.format_rules() is Ok,
            r.identifier_spec()@ == isrc_for(index as nat),
            recording_drawn(r, old(rng)@, index),
            final(rng)@ == recording_draw(old(rng)@).1,
    {
        random_with_isrc_index(rng, index)
    }

    /// The smallest recording of `min_size_recording`, carrying the ISRC of
    /// `index`.
    fn min_size_with_index(index: u32) -> (r: Recording)
        ensures
            r.identifier_spec()@ == isrc_for(index as nat),
            r matches Recording::V1(v) && v.title@.len() == 1 && v.title_aliases@.len() == 0
                && v.featuring@.len() == 0 && v.performers@.len() == 0 && v.producers@.len() == 0
                && v.contributors@.len() == 0 && v.places is None && v.offchain_extension is None
                && v.work == WorkRef::Midds(0),
    {
        with_isrc(min_size_recording(), index)
    }

    /// The saturated recording of `max_size_recording`, carrying the ISRC of
    /// `index`.
    fn max_size_with_index(index: u32) -> (r: Recording)
        ensures
            r.identifier_spec()@ == isrc_for(index as nat),
            r matches Recording::V1(v) && recording_saturated(v),
    {
        with_isrc(max_size_recording(), index)
    }
}

} // verus!
