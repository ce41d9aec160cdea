//! `Release` fixtures: a builder over already-bounded inputs and seeded
//! random generation.
use vstd::prelude::*;
use vstd::slice::slice_to_vec;

use crate::bounded::Bounded;
use crate::country::Country;
use crate::fixtures::identifiers::{
    ipi_from_stem, isni_random, isrc_random, upc_for, upc_for_index,
};
use crate::fixtures::{alphabet_text, random_party_id, random_text};
use crate::fixtures::draws::{
    digit_byte_draw, producer_draw, producer_view, recording_ref_view, release_draw,
    release_drawn, sized_text_draw, track_ref_draw,
};
use crate::fixtures::rng::{draw_between, repeat, rng_bool, rng_draw, rng_word, FixtureRng};
use crate::identifier::{isni_format, OffchainHash, Upc};
use crate::lists::{party_rule, text_rule};
use crate::midds::Midds;
use crate::release::{
    numbering_is_contiguous, producer_check, producer_rule, release_v1_check, track_rule,
    CoverContributorName, Producer, Release, ReleaseDate, ReleaseFormat, ReleasePackaging,
    ReleaseStatus, ReleaseType, ReleaseV1, Track,
};
use crate::scan::lemma_first_failure_all_ok;
use crate::fixtures::MiddsFixtures;
use crate::fixtures::pathological::{max_size_release, min_size_release, release_saturated};
use crate::shared::{party_id_check, recording_ref_check, same_recording_ref, PartyId, RecordingRef};

verus! {

/// Fluent builder over already-canonical inputs. Test-ergonomic: it takes
/// bounded values and its callers keep them within the bounds. Tracks are
/// numbered `1, 2, …` in the order they are given.
#[derive(Debug, Clone)]
pub struct ReleaseBuilder {
    draft: ReleaseV1,
}

impl View for ReleaseBuilder {
    type V = ReleaseV1;

    /// The payload `build` returns.
    closed spec fn view(&self) -> ReleaseV1 {
        self.draft
    }
}

/// `bytes` as a bounded string of capacity `N` (`bytes` fits).
fn bounded_bytes<const N: u32>(bytes: &[u8]) -> (r: Bounded<u8, N>)
    requires
        bytes@.len() <= N,
    ensures
        r@ == bytes@,
{
    match Bounded::try_new(slice_to_vec(bytes)) {
        Ok(v) => v,
        Err(_) => Bounded::new(),
    }
}

/// The tracks `refs` numbered `1, 2, …`.
pub open spec fn numbered(refs: Seq<RecordingRef>, tracks: Seq<Track>) -> bool {
    &&& tracks.len() == refs.len()
    &&& forall|i: int|
        0 <= i < refs.len() ==> (#[trigger] tracks[i]).number == i + 1 && tracks[i].recording
            == refs[i]
}

/// Numbers `refs` as tracks `1, 2, …` (at most 256).
pub(crate) fn number_tracks(refs: Vec<RecordingRef>) -> (r: Bounded<Track, 256>)
    requires
        refs@.len() <= 256,
    ensures
        numbered(refs@, r@),
{
    let ghost all = refs@;
    let mut out: Vec<Track> = Vec::new();
    let mut rest = refs;
    // Take the references from the back, then restore their order.
    let mut reversed: Vec<RecordingRef> = Vec::new();
    while rest.len() > 0
        invariant
            all.len() <= 256,
            rest@.len() + reversed@.len() == all.len(),
            rest@ == all.subrange(0, rest@.len() as int),
            forall|i: int| 0 <= i < reversed@.len() ==> #[trigger] reversed@[i] == all[all.len() - 1 - i],
        decreases rest@.len(),
    {
        let x = rest.pop().unwrap();
        reversed.push(x);
    }
    while reversed.len() > 0
        invariant
            all.len() <= 256,
            out@.len() + reversed@.len() == all.len(),
            forall|i: int| 0 <= i < reversed@.len() ==> #[trigger] reversed@[i] == all[all.len() - 1 - i],
            forall|i: int|
                0 <= i < out@.len() ==> (#[trigger] out@[i]).number == i + 1 && out@[i].recording == all[i],
        decreases reversed@.len(),
    {
        let x = reversed.pop().unwrap();
        let number = (out.len() + 1) as u16;
        out.push(Track { number, recording: x });
    }
    match Bounded::try_new(out) {
        Ok(b) => b,
        Err(_) => Bounded::new(),
    }
}

impl ReleaseBuilder {
    /// Builder with valid defaults: the EAN-13 of index 0, the title
    /// `Untitled Release`, an IPI artist with a checksum-correct synthetic
    /// code, one on-chain track, an official album on CD in the US dated
    /// 2024-01-01 by `Unknown Distributor`. Building it gives a payload that
    /// passes `validate_format`.
    pub fn new() -> (r: Self)
        ensures
            r@.upc@ == upc_for(0),
            r@.title@.len() == 16,
            r@.title_aliases@.len() == 0,
            r@.featuring@.len() == 0,
            r@.tracks@.len() == 1,
            r@.tracks@[0] == (Track { number: 1, recording: RecordingRef::Midds(0) }),
            r@.producers@.len() == 0,
            r@.status == ReleaseStatus::Official,
            r@.release_date == (ReleaseDate { year: 2024, month: 1, day: 1 }),
            r@.country == Country::Us,
            r@.distributor_name@.len() == 19,
            r@.release_type == ReleaseType::Album,
            r@.format == ReleaseFormat::Cd,
            r@.packaging == ReleasePackaging::NoPackaging,
            r@.cover_contributors@.len() == 0,
            r@.offchain_extension is None,
            release_v1_check(r@) is Ok,
    {
        let mut tracks: Bounded<Track, 256> = Bounded::new();
        let _ = tracks.try_push(Track { number: 1, recording: RecordingRef::Midds(0) });
        let draft = ReleaseV1 {
            upc: upc_for_index(0),
            // "Untitled Release"
            title: bounded_bytes::<256>(
                &[85, 110, 116, 105, 116, 108, 101, 100, 32, 82, 101, 108, 101, 97, 115, 101],
            ),
            title_aliases: Bounded::new(),
            artist: PartyId::Ipi(ipi_from_stem(123_456_789, 9)),
            featuring: Bounded::new(),
            tracks,
            producers: Bounded::new(),
            status: ReleaseStatus::Official,
            release_date: ReleaseDate { year: 2024, month: 1, day: 1 },
            country: Country::Us,
            // "Unknown Distributor"
            distributor_name: bounded_bytes::<128>(
                &[
                    85, 110, 107, 110, 111, 119, 110, 32, 68, 105, 115, 116, 114, 105, 98, 117, 116,
                    111, 114,
                ],
            ),
            release_type: ReleaseType::Album,
            format: ReleaseFormat::Cd,
            packaging: ReleasePackaging::NoPackaging,
            cover_contributors: Bounded::new(),
            offchain_extension: None,
        };
        proof {
            lemma_first_failure_all_ok(0, 0, text_rule(draft.title_aliases@));
            lemma_first_failure_all_ok(0, 0, party_rule(draft.featuring@));
            lemma_first_failure_all_ok(0, 0, producer_rule(draft.producers@));
            lemma_first_failure_all_ok(0, 0, text_rule(draft.cover_contributors@));
            assert(track_rule(draft.tracks@)(0) is Ok);
            lemma_first_failure_all_ok(0, 1, track_rule(draft.tracks@));
        }
        ReleaseBuilder { draft }
    }

    /// Overrides the canonical identifier.
    pub fn upc(self, upc: Upc) -> (r: Self)
        ensures
            r@ == (ReleaseV1 { upc, ..self@ }),
    {
        let mut b = self;
        b.draft.upc = upc;
        b
    }

    /// Overrides the title (at most 256 bytes).
    pub fn title(self, bytes: &[u8]) -> (r: Self)
        requires
            bytes@.len() <= 256,
        ensures
            r@ == (ReleaseV1 { title: r@.title, ..self@ }),
            r@.title@ == bytes@,
    {
        let mut b = self;
        b.draft.title = bounded_bytes::<256>(bytes);
        b
    }

    /// Appends an alternative title (at most 256 bytes, at most 8 aliases).
    pub fn add_title_alias(self, bytes: &[u8]) -> (r: Self)
        requires
            bytes@.len() <= 256,
            self@.title_aliases@.len() < 8,
        ensures
            r@ == (ReleaseV1 { title_aliases: r@.title_aliases, ..self@ }),
            r@.title_aliases@.len() == self@.title_aliases@.len() + 1,
            r@.title_aliases@.drop_last() == self@.title_aliases@,
            r@.title_aliases@.last()@ == bytes@,
    {
        let mut b = self;
        let alias = bounded_bytes::<256>(bytes);
        let _ = b.draft.title_aliases.try_push(alias);
        assert(b@.title_aliases@.drop_last() =~= self@.title_aliases@);
        b
    }

    /// Sets the main artist.
    pub fn artist(self, artist: PartyId) -> (r: Self)
        ensures
            r@ == (ReleaseV1 { artist, ..self@ }),
    {
        let mut b = self;
        b.draft.artist = artist;
        b
    }

    /// Replaces the featured artists (at most 16).
    pub fn featuring_unchecked(self, featuring: Vec<PartyId>) -> (r: Self)
        requires
            featuring@.len() <= 16,
        ensures
            r@ == (ReleaseV1 { featuring: r@.featuring, ..self@ }),
            r@.featuring@ == featuring@,
    {
        let mut b = self;
        if let Ok(f) = Bounded::try_new(featuring) {
            b.draft.featuring = f;
        }
        b
    }

    /// Replaces the tracklist (at most 256), numbered `1, 2, …`.
    pub fn tracks_unchecked(self, tracks: Vec<RecordingRef>) -> (r: Self)
        requires
            tracks@.len() <= 256,
        ensures
            r@ == (ReleaseV1 { tracks: r@.tracks, ..self@ }),
            numbered(tracks@, r@.tracks@),
    {
        let mut b = self;
        b.draft.tracks = number_tracks(tracks);
        b
    }

    /// Appends a track, numbered after the existing ones (at most 256).
    pub fn add_track(self, track: RecordingRef) -> (r: Self)
        requires
            self@.tracks@.len() < 256,
        ensures
            r@ == (ReleaseV1 { tracks: r@.tracks, ..self@ }),
            r@.tracks@ == self@.tracks@.push(
                Track { number: (self@.tracks@.len() + 1) as u16, recording: track },
            ),
    {
        let mut b = self;
        let number = (b.draft.tracks.len() + 1) as u16;
        let _ = b.draft.tracks.try_push(Track { number, recording: track });
        b
    }

    /// Replaces the producers (at most 16).
    pub fn producers_unchecked(self, producers: Vec<Producer>) -> (r: Self)
        requires
            producers@.len() <= 16,
        ensures
            r@ == (ReleaseV1 { producers: r@.producers, ..self@ }),
            r@.producers@ == producers@,
    {
        let mut b = self;
        if let Ok(p) = Bounded::try_new(producers) {
            b.draft.producers = p;
        }
        b
    }

    /// Sets the editorial status.
    pub fn status(self, status: ReleaseStatus) -> (r: Self)
        ensures
            r@ == (ReleaseV1 { status, ..self@ }),
    {
        let mut b = self;
        b.draft.status = status;
        b
    }

    /// Sets the release date.
    pub fn release_date(self, year: u16, month: u8, day: u8) -> (r: Self)
        ensures
            r@ == (ReleaseV1 { release_date: ReleaseDate { year, month, day }, ..self@ }),
    {
        let mut b = self;
        b.draft.release_date = ReleaseDate { year, month, day };
        b
    }

    /// Sets the country of release.
    pub fn country(self, country: Country) -> (r: Self)
        ensures
            r@ == (ReleaseV1 { country, ..self@ }),
    {
        let mut b = self;
        b.draft.country = country;
        b
    }

    /// Sets the distributor name (at most 128 bytes).
    pub fn distributor_name(self, bytes: &[u8]) -> (r: Self)
        requires
            bytes@.len() <= 128,
        ensures
            r@ == (ReleaseV1 { distributor_name: r@.distributor_name, ..self@ }),
            r@.distributor_name@ == bytes@,
    {
        let mut b = self;
        b.draft.distributor_name = bounded_bytes::<128>(bytes);
        b
    }

    /// Sets the release type.
    pub fn release_type(self, release_type: ReleaseType) -> (r: Self)
        ensures
            r@ == (ReleaseV1 { release_type, ..self@ }),
    {
        let mut b = self;
        b.draft.release_type = release_type;
        b
    }

    /// Sets the format.
    pub fn format(self, format: ReleaseFormat) -> (r: Self)
        ensures
            r@ == (ReleaseV1 { format, ..self@ }),
    {
        let mut b = self;
        b.draft.format = format;
        b
    }

    /// Sets the packaging.
    pub fn packaging(self, packaging: ReleasePackaging) -> (r: Self)
        ensures
            r@ == (ReleaseV1 { packaging, ..self@ }),
    {
        let mut b = self;
        b.draft.packaging = packaging;
        b
    }

    /// Appends a cover-artwork contributor name (at most 128 bytes, at most
    /// 16 names).
    pub fn add_cover_contributor(self, bytes: &[u8]) -> (r: Self)
        requires
            bytes@.len() <= 128,
            self@.cover_contributors@.len() < 16,
        ensures
            r@ == (ReleaseV1 { cover_contributors: r@.cover_contributors, ..self@ }),
            r@.cover_contributors@.len() == self@.cover_contributors@.len() + 1,
            r@.cover_contributors@.drop_last() == self@.cover_contributors@,
            r@.cover_contributors@.last()@ == bytes@,
    {
        let mut b = self;
        let name: CoverContributorName = bounded_bytes::<128>(bytes);
        let _ = b.draft.cover_contributors.try_push(name);
        assert(b@.cover_contributors@.drop_last() =~= self@.cover_contributors@);
        b
    }

    /// Sets the off-chain extension hash (at most 64 bytes).
    pub fn offchain_extension(self, bytes: &[u8]) -> (r: Self)
        requires
            bytes@.len() <= 64,
        ensures
            r@ == (ReleaseV1 { offchain_extension: r@.offchain_extension, ..self@ }),
            r@.offchain_extension matches Some(h) && h@ == bytes@,
    {
        let mut b = self;
        b.draft.offchain_extension = Some(bounded_bytes::<64>(bytes));
        b
    }

    /// Finalises into a `Release::V1`. Does not validate.
    pub fn build(self) -> (r: Release)
        ensures
            r == Release::V1(self@),
    {
        Release::V1(self.draft)
    }
}

/// The pool `pick_status` draws from: the five statuses, by position.
pub open spec fn status_pool(k: int) -> ReleaseStatus {
    if k == 0 {
        ReleaseStatus::Official
    } else if k == 1 {
        ReleaseStatus::Promotional
    } else if k == 2 {
        ReleaseStatus::Bootleg
    } else if k == 3 {
        ReleaseStatus::Withdrawn
    } else {
        ReleaseStatus::Other
    }
}

/// A uniformly random status among five.
fn pick_status(rng: &mut FixtureRng) -> (r: ReleaseStatus)
    ensures
        exists|k: int| 0 <= k < 5 && r == #[trigger] status_pool(k),
        ({
            let (k, t) = draw_between(old(rng)@, 0, 4);
            r == status_pool(k as int) && final(rng)@ == t
        }),
{
    let k = rng_draw(rng, 0, 4);
    let r = match k {
        0 => ReleaseStatus::Official,
        1 => ReleaseStatus::Promotional,
        2 => ReleaseStatus::Bootleg,
        3 => ReleaseStatus::Withdrawn,
        _ => ReleaseStatus::Other,
    };
    assert(r == status_pool(k as int));
    r
}

/// The pool `pick_type` draws from: the six release types, by position.
pub open spec fn type_pool(k: int) -> ReleaseType {
    if k == 0 {
        ReleaseType::Album
    } else if k == 1 {
        ReleaseType::Single
    } else if k == 2 {
        ReleaseType::Ep
    } else if k == 3 {
        ReleaseType::Compilation
    } else if k == 4 {
        ReleaseType::Live
    } else {
        ReleaseType::Other
    }
}

/// A uniformly random release type among six.
fn pick_type(rng: &mut FixtureRng) -> (r: ReleaseType)
    ensures
        exists|k: int| 0 <= k < 6 && r == #[trigger] type_pool(k),
        ({
            let (k, t) = draw_between(old(rng)@, 0, 5);
            r == type_pool(k as int) && final(rng)@ == t
        }),
{
    let k = rng_draw(rng, 0, 5);
    let r = match k {
        0 => ReleaseType::Album,
        1 => ReleaseType::Single,
        2 => ReleaseType::Ep,
        3 => ReleaseType::Compilation,
        4 => ReleaseType::Live,
        _ => ReleaseType::Other,
    };
    assert(r == type_pool(k as int));
    r
}

/// The pool `pick_format` draws from: the six formats, by position.
pub open spec fn format_pool(k: int) -> ReleaseFormat {
    if k == 0 {
        ReleaseFormat::Cd
    } else if k == 1 {
        ReleaseFormat::Vinyl
    } else if k == 2 {
        ReleaseFormat::Cassette
    } else if k == 3 {
        ReleaseFormat::DigitalDownload
    } else if k == 4 {
        ReleaseFormat::Streaming
    } else {
        ReleaseFormat::Other
    }
}

/// A uniformly random format among six.
fn pick_format(rng: &mut FixtureRng) -> (r: ReleaseFormat)
    ensures
        exists|k: int| 0 <= k < 6 && r == #[trigger] format_pool(k),
        ({
            let (k, t) = draw_between(old(rng)@, 0, 5);
            r == format_pool(k as int) && final(rng)@ == t
        }),
{
    let k = rng_draw(rng, 0, 5);
    let r = match k {
        0 => ReleaseFormat::Cd,
        1 => ReleaseFormat::Vinyl,
        2 => ReleaseFormat::Cassette,
        3 => ReleaseFormat::DigitalDownload,
        4 => ReleaseFormat::Streaming,
        _ => ReleaseFormat::Other,
    };
    assert(r == format_pool(k as int));
    r
}

/// The pool `pick_packaging` draws from: the five packagings, by position.
pub open spec fn packaging_pool(k: int) -> ReleasePackaging {
    if k == 0 {
        ReleasePackaging::NoPackaging
    } else if k == 1 {
        ReleasePackaging::JewelCase
    } else if k == 2 {
        ReleasePackaging::Digipak
    } else if k == 3 {
        ReleasePackaging::Gatefold
    } else {
        ReleasePackaging::Other
    }
}

/// A uniformly random packaging among five.
fn pick_packaging(rng: &mut FixtureRng) -> (r: ReleasePackaging)
    ensures
        exists|k: int| 0 <= k < 5 && r == #[trigger] packaging_pool(k),
        ({
            let (k, t) = draw_between(old(rng)@, 0, 4);
            r == packaging_pool(k as int) && final(rng)@ == t
        }),
{
    let k = rng_draw(rng, 0, 4);
    let r = match k {
        0 => ReleasePackaging::NoPackaging,
        1 => ReleasePackaging::JewelCase,
        2 => ReleasePackaging::Digipak,
        3 => ReleasePackaging::Gatefold,
        _ => ReleasePackaging::Other,
    };
    assert(r == packaging_pool(k as int));
    r
}

/// The pool `pick_country` draws from: the eight countries, by position.
pub open spec fn country_pool(k: int) -> Country {
    if k == 0 {
        Country::Us
    } else if k == 1 {
        Country::Fr
    } else if k == 2 {
        Country::Gb
    } else if k == 3 {
        Country::De
    } else if k == 4 {
        Country::Jp
    } else if k == 5 {
        Country::Br
    } else if k == 6 {
        Country::Au
    } else {
        Country::Za
    }
}

/// A uniformly random country among eight.
fn pick_country(rng: &mut FixtureRng) -> (r: Country)
    ensures
        exists|k: int| 0 <= k < 8 && r == #[trigger] country_pool(k),
        ({
            let (k, t) = draw_between(old(rng)@, 0, 7);
            r == country_pool(k as int) && final(rng)@ == t
        }),
{
    let k = rng_draw(rng, 0, 7);
    let r = match k {
        0 => Country::Us,
        1 => Country::Fr,
        2 => Country::Gb,
        3 => Country::De,
        4 => Country::Jp,
        5 => Country::Br,
        6 => Country::Au,
        _ => Country::Za,
    };
    assert(r == country_pool(k as int));
    r
}

/// A random producer: a valid ISNI and a catalog number of 1 to 12 digits.
fn random_producer(rng: &mut FixtureRng) -> (r: Producer)
    ensures
        producer_check(r) is Ok,
        (producer_view(r), final(rng)@) == producer_draw(old(rng)@),
{
    let cat_len = rng_draw(rng, 1, 12);
    let ghost c0 = rng@;
    let mut catalog: Vec<u8> = Vec::new();
    let mut k: u32 = 0;
    while k < cat_len
        invariant
            k <= cat_len <= 12,
            catalog@.len() == k,
            (catalog@, rng@) == repeat(c0, k as nat, |x: (u64, nat)| digit_byte_draw(x)),
        decreases cat_len - k,
    {
        let d = rng_draw(rng, 0, 9);
        catalog.push(48 + d as u8);
        k += 1;
    }
    let isni = isni_random(rng);
    Producer { isni, catalog_number: bounded_bytes::<32>(catalog.as_slice()) }
}

/// The distributor of generated releases: `Independent Distributor`.
pub open spec fn independent_distributor() -> Seq<u8> {
    seq![
        73u8, 110, 100, 101, 112, 101, 110, 100, 101, 110, 116, 32, 68, 105, 115, 116, 114, 105,
        98, 117, 116, 111, 114,
    ]
}

/// No two tracks of `s` point to the same recording.
pub open spec fn distinct_recordings(s: Seq<Track>) -> bool {
    forall|i: int, j: int|
        0 <= i < j < s.len() ==> !same_recording_ref(#[trigger] s[i].recording, #[trigger] s[j].recording)
}

/// A realistic `Release` whose UPC is derived from `index`, so that indices
/// `0..N` give distinct UPCs. Its 1 to 12 tracks are random references;
/// whenever no two of them point to the same recording (the only rule a
/// random draw can break), the payload passes `validate_format`.
pub fn random_with_upc_index(rng: &mut FixtureRng, index: u32) -> (r: Release)
    ensures
        release_drawn(r, old(rng)@, upc_for(index as nat)),
        final(rng)@ == release_draw(old(rng)@).1,
        r.identifier_spec()@ == upc_for(index as nat),
        r matches Release::V1(v) && (distinct_recordings(v.tracks@) ==> r.format_rules() is Ok),
        r matches Release::V1(v) && 1 <= v.tracks@.len() <= 12 && forall|k: int|
            0 <= k < v.tracks@.len() ==> (#[trigger] v.tracks@[k]).number == k + 1,
        r matches Release::V1(v) && {
            &&& alphabet_text(v.title@, 8, 64)
            &&& v.artist is Ipi || v.artist is Isni
            &&& v.title_aliases@.len() == 0 && v.featuring@.len() == 0
            &&& v.producers@.len() <= 2
            &&& v.cover_contributors@.len() <= 2
            &&& forall|k: int|
                0 <= k < v.cover_contributors@.len() ==> alphabet_text(
                    (#[trigger] v.cover_contributors@[k])@,
                    4,
                    24,
                )
            &&& 1900 <= v.release_date.year <= 2025
            &&& 1 <= v.release_date.month <= 12
            &&& 1 <= v.release_date.day <= 28
            &&& v.distributor_name@ == independent_distributor()
            &&& v.offchain_extension is None
        },
{
    let ghost s0 = rng@;
    let upc = upc_for_index(index);
    let title_len = rng_draw(rng, 8, 64);
    let title = random_text(rng, title_len as usize);
    let artist = random_party_id(rng);
    let track_count = rng_draw(rng, 1, 12);
    let ghost t0 = rng@;
    let mut tracks: Vec<RecordingRef> = Vec::new();
    let mut k: u32 = 0;
    while k < track_count
        invariant
            k <= track_count <= 12,
            tracks@.len() == k,
            (tracks@.map_values(|t: RecordingRef| recording_ref_view(t)), rng@) == repeat(
                t0,
                k as nat,
                |x: (u64, nat)| track_ref_draw(x),
            ),
            forall|j: int| 0 <= j < k ==> recording_ref_check(#[trigger] tracks@[j]) is Ok,
        decreases track_count - k,
    {
        let ghost before = tracks@;
        let ghost w = rng@;
        let t = if rng_bool(rng) {
            RecordingRef::Isrc(isrc_random(rng))
        } else {
            RecordingRef::Midds(rng_word(rng))
        };
        assert((recording_ref_view(t), rng@) == track_ref_draw(w));
        tracks.push(t);
        assert(tracks@.map_values(|t: RecordingRef| recording_ref_view(t)) =~= before.map_values(
            |t: RecordingRef| recording_ref_view(t),
        ).push(recording_ref_view(t)));
        k += 1;
    }
    let producer_count = rng_draw(rng, 0, 2);
    let ghost q0 = rng@;
    let mut producers: Vec<Producer> = Vec::new();
    let mut k: u32 = 0;
    while k < producer_count
        invariant
            k <= producer_count <= 2,
            producers@.len() == k,
            (producers@.map_values(|p: Producer| producer_view(p)), rng@) == repeat(
                q0,
                k as nat,
                |x: (u64, nat)| producer_draw(x),
            ),
            forall|j: int| 0 <= j < k ==> producer_check(#[trigger] producers@[j]) is Ok,
        decreases producer_count - k,
    {
        let ghost before = producers@;
        let p = random_producer(rng);
        producers.push(p);
        assert(producers@.map_values(|p: Producer| producer_view(p)) =~= before.map_values(
            |p: Producer| producer_view(p),
        ).push(producer_view(p)));
        k += 1;
    }
    let cover_count = rng_draw(rng, 0, 2);
    let ghost v0 = rng@;
    let mut covers: Vec<Vec<u8>> = Vec::new();
    let mut k: u32 = 0;
    while k < cover_count
        invariant
            k <= cover_count <= 2,
            covers@.len() == k,
            (covers@.map_values(|c: Vec<u8>| c@), rng@) == repeat(
                v0,
                k as nat,
                |x: (u64, nat)| sized_text_draw(x, 4, 24),
            ),
            forall|j: int| 0 <= j < k ==> alphabet_text((#[trigger] covers@[j])@, 4, 24),
        decreases cover_count - k,
    {
        let ghost before = covers@;
        let n = rng_draw(rng, 4, 24);
        let c = random_text(rng, n as usize);
        let ghost cv = c@;
        covers.push(c);
        assert(covers@.map_values(|c: Vec<u8>| c@) =~= before.map_values(|c: Vec<u8>| c@).push(cv));
        k += 1;
    }
    let status = pick_status(rng);
    let year = rng_draw(rng, 1900, 2025) as u16;
    let month = rng_draw(rng, 1, 12) as u8;
    let day = rng_draw(rng, 1, 28) as u8;
    let country = pick_country(rng);
    let release_type = pick_type(rng);
    let format = pick_format(rng);
    let packaging = pick_packaging(rng);
    let ghost refs = tracks@;
    let ghost prods = producers@;
    // "Independent Distributor"
    let distributor: [u8; 23] = [
        73, 110, 100, 101, 112, 101, 110, 100, 101, 110, 116, 32, 68, 105, 115, 116, 114, 105,
        98, 117, 116, 111, 114,
    ];
    let mut b = ReleaseBuilder::new().upc(upc).title(title.as_slice()).artist(artist).tracks_unchecked(
        tracks,
    ).producers_unchecked(producers).status(status).release_date(year, month, day).country(
        country,
    ).distributor_name(&distributor).release_type(release_type).format(format).packaging(
        packaging,
    );
    let ghost base = b@;
    let mut k: usize = 0;
    while k < covers.len()
        invariant
            k <= covers@.len() <= 2,
            forall|j: int| 0 <= j < covers@.len() ==> alphabet_text((#[trigger] covers@[j])@, 4, 24),
            b@ == (ReleaseV1 { cover_contributors: b@.cover_contributors, ..base }),
            b@.cover_contributors@.len() == k,
            forall|j: int| 0 <= j < k ==> (#[trigger] b@.cover_contributors@[j])@ == covers@[j]@,
        decreases covers@.len() - k,
    {
        let ghost before = b@.cover_contributors@;
        b = b.add_cover_contributor(covers[k].as_slice());
        proof {
            assert forall|j: int| 0 <= j < k + 1 implies (#[trigger] b@.cover_contributors@[j])@ == covers@[j]@ by {
                if j < k {
                    assert(b@.cover_contributors@[j] == b@.cover_contributors@.drop_last()[j]);
                }
            }
        }
        k += 1;
    }
    let r = b.build();
    proof {
        let v = b@;
        assert(v.cover_contributors@.map_values(|c: Bounded<u8, 128>| c@) =~= covers@.map_values(
            |c: Vec<u8>| c@,
        ));
        assert(numbered(refs, v.tracks@));
        if distinct_recordings(v.tracks@) {
            assert forall|j: int| 0 <= j < v.tracks@.len() implies #[trigger] track_rule(v.tracks@)(
                j,
            ) is Ok by {
                assert(recording_ref_check(refs[j]) is Ok);
                assert forall|i: int| 0 <= i < j implies !same_recording_ref(
                    v.tracks@[i].recording,
                    v.tracks@[j].recording,
                ) by {}
            }
            lemma_first_failure_all_ok(0, v.tracks@.len() as int, track_rule(v.tracks@));
            assert(numbering_is_contiguous(v.tracks@));
        }
        assert forall|j: int| 0 <= j < v.producers@.len() implies #[trigger] producer_rule(
            v.producers@,
        )(j) is Ok by {
            assert(producer_check(prods[j]) is Ok);
        }
        lemma_first_failure_all_ok(0, v.producers@.len() as int, producer_rule(v.producers@));
        assert forall|j: int| 0 <= j < v.cover_contributors@.len() implies #[trigger] text_rule(
            v.cover_contributors@,
        )(j) is Ok by {}
        lemma_first_failure_all_ok(0, v.cover_contributors@.len() as int, text_rule(v.cover_contributors@));
        lemma_first_failure_all_ok(0, 0, text_rule(v.title_aliases@));
        lemma_first_failure_all_ok(0, 0, party_rule(v.featuring@));
    }
    r
}

/// `release` with its UPC replaced by the one of `index`.
fn with_upc(release: Release, index: u32) -> (r: Release)
    ensures
        release.format_rules() is Ok ==> r.format_rules() is Ok,
        r.identifier_spec()@ == upc_for(index as nat),
        r matches Release::V1(b) && b.upc@.len() == 13,
        release matches Release::V1(a) && r matches Release::V1(b) && b == (ReleaseV1 {
            upc: b.upc,
            ..a
        }),
{
    let Release::V1(mut v1) = release;
    v1.upc = upc_for_index(index);
    Release::V1(v1)
}

/// The `Release` fixture set.
pub struct ReleaseFixtures;

impl MiddsFixtures for ReleaseFixtures {
    type Item = Release;

    open spec fn identifier_bytes(id: Upc) -> Seq<u8> {
        id@
    }

    open spec fn identifier_for_index(index: u32) -> Seq<u8> {
        upc_for(index as nat)
    }

    open spec fn distinct_indices() -> nat {
        4_294_967_296
    }

    proof fn lemma_index_identifiers_distinct(a: u32, b: u32) {
        crate::fixtures::identifiers::lemma_upc_for_index_injective(a, b);
    }

    /// The releases `gen_n_release` generates: each the one the draws from
    /// `seed` produce for its index.
    fn gen_n(seed: u64, count: u32) -> (r: Vec<Release>)
        ensures
            forall|i: int|
                0 <= i < count ==> release_drawn(
                    #[trigger] r@[i],
                    crate::fixtures::draws::release_state(seed, i as nat),
                    upc_for(i as nat),
                ),
    {
        crate::fixtures::gen_n_release(seed, count)
    }

    /// The smallest and the saturated release, in that order.
    fn pathological() -> (r: Vec<Release>)
        ensures
            r@.len() == 2,
            r@[0] matches Release::V1(v) && v.title@.len() == 1 && v.tracks@.len() == 1
                && v.title_aliases@.len() == 0 && v.featuring@.len() == 0
                && v.producers@.len() == 0 && v.cover_contributors@.len() == 0
                && v.offchain_extension is None,
            r@[1] matches Release::V1(v) && release_saturated(v) && v.upc@ == upc_for(0),
    {
        let mut v: Vec<Release> = Vec::new();
        v.push(min_size_release());
        v.push(max_size_release());
        v
    }

    /// The 32 releases generated from a fixed seed (there is no committed
    /// release corpus).
    fn corpus() -> (r: Vec<Release>)
        ensures
            r@.len() == 32,
    {
        crate::fixtures::gen_n_release(0xD15C_0DED_D15C_0DED, 32)
    }

    fn random_with_index(rng: &mut FixtureRng, index: u32) -> (r: Release)
        ensures
            r.identifier_spec()@ == upc_for(index as nat),
            r matches Release::V1(v) && (distinct_recordings(v.tracks@) ==> r.format_rules() is Ok),
            r matches Release::V1(v) && 1 <= v.tracks@.len() <= 12 && forall|k: int|
                0 <= k < v.tracks@.len() ==> (#[trigger] v.tracks@[k]).number == k + 1,
            release_drawn(r, old(rng)@, upc_for(index as nat)),
            final(rng)@ == release_draw(old(rng)@).1,
    {
        random_with_upc_index(rng, index)
    }

    /// The smallest release of `min_size_release`, carrying the UPC of
    /// `index`.
    fn min_size_with_index(index: u32) -> (r: Release)
        ensures
            r.identifier_spec()@ == upc_for(index as nat),
            r matches Release::V1(v) && v.title@.len() == 1 && v.tracks@.len() == 1
                && v.title_aliases@.len() == 0 && v.featuring@.len() == 0
                && v.producers@.len() == 0 && v.cover_contributors@.len() == 0
                && v.offchain_extension is None,
    {
        with_upc(min_size_release(), index)
    }

    /// The saturated release of `max_size_release`, carrying the UPC of
    /// `index`.
    fn max_size_with_index(index: u32) -> (r: Release)
        ensures
            r.identifier_spec()@ == upc_for(index as nat),
            r matches Release::V1(v) && release_saturated(v),
    {
        with_upc(max_size_release(), index)
    }
}

} // verus!
