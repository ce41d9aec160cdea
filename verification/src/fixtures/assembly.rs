//! Payloads put together from independently drawn pieces.
//!
//! The property-test strategies draw the pieces of a payload (identifiers,
//! texts, parties, codes); the functions here assemble them into a
//! `MusicalWorkV1`, `RecordingV1` or `ReleaseV1`. Each says exactly what it
//! builds, and that the payload passes `validate_format` whenever every
//! piece passes its own rule.
use vstd::prelude::*;

use crate::bounded::Bounded;
use crate::fixtures::identifiers::{iswc_for_code, iswc_from_work_code, lemma_iswc_for_code_valid};
use crate::fixtures::strategy::codes_name_other_works;
use crate::identifier::{iswc_format, offchain_opt_check, Iswc, OffchainHash};
use crate::language::Language;
use crate::musical_work::{
    classical_opt_check, creators_check, musical_work_v1_check, ref_distinct_rule,
    ref_structure_rule, sample_rule, source_list_check, work_type_check, ClassicalInfo, Creator,
    MusicalWorkV1, WorkReferences, WorkType,
};
use crate::country::Country;
use crate::fixtures::strategy::{lists_recording, tracklist_from};
use crate::identifier::{isrc_format, upc_format, Isni, Isrc, Upc};
use crate::lists::{isnis_check, parties_check, texts_check};
use crate::recording::{
    genre_check, performers_check, places_opt_check, recording_v1_check, Genre, Performer,
    ProductionPlaces, RecordingV1, RecordingVersion,
};
use crate::release::{
    producers_check, release_date_check, release_v1_check, tracks_check, Producer, ReleaseDate,
    ReleaseFormat, ReleasePackaging, ReleaseStatus, ReleaseType, ReleaseV1, Track,
};
use crate::scan::lemma_first_failure_all_ok;
use crate::shared::{party_id_check, recording_ref_check, PartyId, RecordingRef};
use crate::shared::{
    bpm_check, non_empty_check, same_work_ref, work_ref_check, year_check, MusicalKey, WorkRef,
};

verus! {

/// `items` as a bounded list.
fn bound<T, const N: u32>(items: Vec<T>) -> (r: Bounded<T, N>)
    requires
        items@.len() <= N,
    ensures
        r@ == items@,
{
    match Bounded::try_new(items) {
        Ok(b) => b,
        Err(_) => Bounded::new(),
    }
}

/// The works `codes` name (through [`iswc_for_code`]) are pairwise
/// distinct.
pub open spec fn codes_name_distinct_works(codes: Seq<u32>) -> bool {
    forall|i: int, j: int|
        0 <= i < j < codes.len() ==> iswc_for_code(#[trigger] codes[i] as nat) != iswc_for_code(
            #[trigger] codes[j] as nat,
        )
}

/// `refs` are the ISWCs `codes` name, in order.
pub open spec fn iswcs_of(refs: Seq<Iswc>, codes: Seq<u32>) -> bool {
    &&& refs.len() == codes.len()
    &&& forall|k: int| 0 <= k < codes.len() ==> (#[trigger] refs[k])@ == iswc_for_code(codes[k] as nat)
}

/// `t` is the work type of kind `kind` over the works `codes` name: `0` an
/// original, `1` a medley and `2` a mashup of all of them, `3` an
/// adaptation of the first, any other kind a rearrangement of the first.
pub open spec fn work_type_of(kind: u8, codes: Seq<u32>, t: WorkType) -> bool {
    if kind == 0 {
        t == WorkType::Original
    } else if kind == 1 {
        t matches WorkType::Medley(refs) && iswcs_of(refs@, codes)
    } else if kind == 2 {
        t matches WorkType::Mashup(refs) && iswcs_of(refs@, codes)
    } else if kind == 3 {
        t matches WorkType::Adaptation(x) && x@ == iswc_for_code(codes[0] as nat)
    } else {
        t matches WorkType::Rearrangement(x) && x@ == iswc_for_code(codes[0] as nat)
    }
}

/// The ISWCs the work codes name.
fn iswcs_for(codes: &Vec<u32>) -> (r: Vec<Iswc>)
    ensures
        iswcs_of(r@, codes@),
{
    let mut out: Vec<Iswc> = Vec::new();
    let mut i: usize = 0;
    while i < codes.len()
        invariant
            i <= codes@.len(),
            out@.len() == i,
            forall|k: int| 0 <= k < i ==> (#[trigger] out@[k])@ == iswc_for_code(codes@[k] as nat),
        decreases codes@.len() - i,
    {
        out.push(iswc_from_work_code(codes[i]));
        i += 1;
    }
    out
}

/// A medley or mashup list naming two or more distinct works other than
/// `own` passes the source-list rule.
proof fn lemma_source_list_ok(refs: Seq<Iswc>, codes: Seq<u32>, own: Seq<u8>)
    requires
        iswcs_of(refs, codes),
        codes_name_other_works(codes, own),
        refs.len() >= 2,
    ensures
        source_list_check(refs, own) is Ok,
{
    let f = ref_structure_rule(refs);
    assert forall|k: int| 0 <= k < refs.len() implies #[trigger] f(k) is Ok by {
        lemma_iswc_for_code_valid(codes[k] as nat);
    }
    lemma_first_failure_all_ok(0, refs.len() as int, f);
    let g = ref_distinct_rule(refs, own);
    assert forall|k: int| 0 <= k < refs.len() implies #[trigger] g(k) is Ok by {
        assert(refs[k]@ == iswc_for_code(codes[k] as nat));
        assert forall|j: int| 0 <= j < k implies refs[j]@ != refs[k]@ by {
            assert(iswc_for_code(codes[j] as nat) != iswc_for_code(codes[k] as nat));
        }
    }
    lemma_first_failure_all_ok(0, refs.len() as int, g);
}

/// The work type of kind `kind` over the works `codes` name (see
/// [`work_type_of`]). It passes the work-type rule of any work `own` that
/// the codes do not name, provided a medley or mashup has two sources.
pub fn work_type_from(kind: u8, codes: &Vec<u32>) -> (r: WorkType)
    requires
        codes@.len() <= 32,
        kind >= 3 ==> codes@.len() >= 1,
    ensures
        work_type_of(kind, codes@, r),
        forall|own: Seq<u8>|
            #![trigger work_type_check(r, own)]
            codes_name_other_works(codes@, own) && ((kind == 1 || kind == 2) ==> codes@.len() >= 2)
                ==> work_type_check(r, own) is Ok,
{
    if kind == 0 {
        WorkType::Original
    } else if kind <= 2 {
        let refs: WorkReferences = bound(iswcs_for(codes));
        let r = if kind == 1 {
            WorkType::Medley(refs)
        } else {
            WorkType::Mashup(refs)
        };
        proof {
            assert forall|own: Seq<u8>|
                codes_name_other_works(codes@, own) && codes@.len() >= 2 implies #[trigger] work_type_check(
                r,
                own,
            ) is Ok by {
                lemma_source_list_ok(refs@, codes@, own);
            }
        }
        r
    } else {
        let x = iswc_from_work_code(codes[0]);
        proof {
            assert(x@ == iswc_for_code(codes@[0] as nat));
        }
        if kind == 3 {
            WorkType::Adaptation(x)
        } else {
            WorkType::Rearrangement(x)
        }
    }
}

/// The distinct values of `ids`.
fn distinct_ids(ids: &Vec<u64>) -> (r: Vec<u64>)
    ensures
        r@.len() <= ids@.len(),
        forall|i: int, j: int| 0 <= i < j < r@.len() ==> r@[i] != r@[j],
        forall|k: int| 0 <= k < r@.len() ==> ids@.contains(#[trigger] r@[k]),
        forall|k: int| 0 <= k < ids@.len() ==> r@.contains(#[trigger] ids@[k]),
{
    let mut out: Vec<u64> = Vec::new();
    let mut i: usize = 0;
    while i < ids.len()
        invariant
            i <= ids@.len(),
            out@.len() <= i,
            forall|a: int, b: int| 0 <= a < b < out@.len() ==> out@[a] != out@[b],
            forall|k: int| 0 <= k < out@.len() ==> ids@.contains(#[trigger] out@[k]),
            forall|k: int| 0 <= k < i ==> out@.contains(#[trigger] ids@[k]),
        decreases ids@.len() - i,
    {
        let x = ids[i];
        let mut seen = false;
        let mut j: usize = 0;
        while j < out.len()
            invariant
                j <= out@.len(),
                seen <==> exists|m: int| 0 <= m < j && out@[m] == x,
            decreases out@.len() - j,
        {
            if out[j] == x {
                seen = true;
            }
            j += 1;
        }
        if !seen {
            let ghost before = out@;
            out.push(x);
            proof {
                assert(ids@.contains(ids@[i as int]));
                assert(out@[before.len() as int] == x);
                assert forall|k: int| 0 <= k < i + 1 implies out@.contains(#[trigger] ids@[k]) by {
                    if k < i {
                        let m = choose|m: int| 0 <= m < before.len() && before[m] == ids@[k];
                        assert(out@[m] == ids@[k]);
                    }
                }
                assert forall|k: int| 0 <= k < out@.len() implies ids@.contains(#[trigger] out@[k]) by {
                    if k < before.len() {
                        assert(out@[k] == before[k]);
                    }
                }
            }
        } else {
            proof {
                let m = choose|m: int| 0 <= m < out@.len() && out@[m] == x;
                assert forall|k: int| 0 <= k < i + 1 implies out@.contains(#[trigger] ids@[k]) by {
                    if k == i {
                        assert(out@[m] == ids@[k]);
                    }
                }
            }
        }
        i += 1;
    }
    out
}

/// Where the sources of a work end among its codes: a medley or mashup
/// takes up to 32 codes after the work's own, any other kind two.
pub open spec fn sources_end(kind: u8, n: nat) -> nat {
    if kind == 1 || kind == 2 {
        if n < 33 {
            n
        } else {
            33
        }
    } else {
        3
    }
}

/// `s` holds a sample for each ISWC `codes` name, in order, then each
/// distinct id of `ids` once, as an on-chain reference.
pub open spec fn samples_from(s: Seq<WorkRef>, codes: Seq<u32>, ids: Seq<u64>) -> bool {
    let m = codes.len() as int;
    &&& m <= s.len()
    &&& forall|k: int|
        0 <= k < m ==> (#[trigger] s[k] matches WorkRef::Iswc(x) && x@ == iswc_for_code(
            codes[k] as nat,
        ))
    &&& forall|k: int| m <= k < s.len() ==> (#[trigger] s[k] matches WorkRef::Midds(id) && ids.contains(id))
    &&& forall|i: int, j: int| m <= i < j < s.len() ==> #[trigger] s[i] != #[trigger] s[j]
    &&& forall|k: int| 0 <= k < ids.len() ==> #[trigger] lists_id(s, m, ids[k])
}

/// `s` holds `id` as an on-chain reference at or after position `from`.
pub open spec fn lists_id(s: Seq<WorkRef>, from: int, id: u64) -> bool {
    exists|j: int| from <= j < s.len() && s[j] == WorkRef::Midds(id)
}

/// A musical work from drawn pieces. `codes` name the work itself (the
/// first), then its sources (see [`sources_end`] and [`work_type_of`]),
/// then up to `n_samples` ISWC samples; each distinct id of
/// `midds_samples` follows as an on-chain sample. The other fields are
/// taken as given. The work passes `validate_format` whenever the codes
/// name distinct works and every other piece passes its own rule.
pub fn musical_work_v1_from(
    codes: Vec<u32>,
    kind: u8,
    n_samples: usize,
    title: Bounded<u8, 256>,
    creation_year: Option<u16>,
    instrumental: bool,
    language: Option<Language>,
    explicit_lyrics: bool,
    bpm: Option<u16>,
    key: Option<MusicalKey>,
    creators: Bounded<Creator, 32>,
    classical_info: Option<ClassicalInfo>,
    offchain_extension: Option<OffchainHash>,
    midds_samples: Vec<u64>,
) -> (r: MusicalWorkV1)
    requires
        codes@.len() >= 3,
        n_samples <= 32,
        midds_samples@.len() <= 32,
    ensures
        r.iswc@ == iswc_for_code(codes@[0] as nat),
        r.title == title && r.creation_year == creation_year && r.instrumental == instrumental,
        r.language == language && r.explicit_lyrics == explicit_lyrics && r.bpm == bpm,
        r.key == key && r.creators == creators && r.classical_info == classical_info,
        r.offchain_extension == offchain_extension,
        ({
            let e = sources_end(kind, codes@.len()) as int;
            let m = if n_samples < codes@.len() - e {
                n_samples as int
            } else {
                codes@.len() - e
            };
            &&& work_type_of(kind, codes@.subrange(1, e), r.work_type)
            &&& samples_from(r.samples@, codes@.subrange(e, e + m), midds_samples@)
        }),
        codes_name_distinct_works(codes@) && non_empty_check(title@) is Ok && year_check(
            creation_year,
        ) is Ok && bpm_check(bpm) is Ok && creators_check(creators@) is Ok && classical_opt_check(
            classical_info,
        ) is Ok && offchain_opt_check(offchain_extension) is Ok ==> musical_work_v1_check(r) is Ok,
{
    let n = codes.len();
    let iswc = iswc_from_work_code(codes[0]);
    let end: usize = if kind == 1 || kind == 2 {
        if n < 33 {
            n
        } else {
            33
        }
    } else {
        3
    };
    let mut sources: Vec<u32> = Vec::new();
    let mut i: usize = 1;
    while i < end
        invariant
            1 <= i <= end <= n,
            n == codes@.len(),
            sources@ == codes@.subrange(1, i as int),
        decreases end - i,
    {
        sources.push(codes[i]);
        i += 1;
    }
    let work_type = work_type_from(kind, &sources);
    let avail = n - end;
    let m = if n_samples < avail {
        n_samples
    } else {
        avail
    };
    let mut samples: Vec<WorkRef> = Vec::new();
    let mut k: usize = 0;
    while k < m
        invariant
            k <= m <= 32,
            end + m <= n,
            n == codes@.len(),
            samples@.len() == k,
            forall|j: int|
                0 <= j < k ==> (#[trigger] samples@[j] matches WorkRef::Iswc(x) && x@
                    == iswc_for_code(codes@[end + j] as nat)),
        decreases m - k,
    {
        samples.push(WorkRef::Iswc(iswc_from_work_code(codes[end + k])));
        k += 1;
    }
    let ids = distinct_ids(&midds_samples);
    let mut k: usize = 0;
    while k < ids.len()
        invariant
            k <= ids@.len() <= 32,
            m <= 32,
            end + m <= n,
            n == codes@.len(),
            samples@.len() == m + k,
            forall|j: int|
                0 <= j < m ==> (#[trigger] samples@[j] matches WorkRef::Iswc(x) && x@
                    == iswc_for_code(codes@[end + j] as nat)),
            forall|j: int| 0 <= j < k ==> #[trigger] samples@[m + j] == WorkRef::Midds(ids@[j]),
        decreases ids@.len() - k,
    {
        samples.push(WorkRef::Midds(ids[k]));
        k += 1;
    }
    let ghost s = samples@;
    let ghost picked = codes@.subrange(end as int, (end + m) as int);
    proof {
        assert forall|j: int| m <= j < s.len() implies (#[trigger] s[j] matches WorkRef::Midds(id)
            && midds_samples@.contains(id)) by {
            assert(s[m + (j - m)] == WorkRef::Midds(ids@[j - m]));
            assert(ids@.contains(ids@[j - m]));
        }
        assert forall|a: int, b: int| m <= a < b < s.len() implies #[trigger] s[a] != #[trigger] s[b] by {
            assert(s[m + (a - m)] == WorkRef::Midds(ids@[a - m]));
            assert(s[m + (b - m)] == WorkRef::Midds(ids@[b - m]));
        }
        assert forall|q: int| 0 <= q < midds_samples@.len() implies #[trigger] lists_id(
            s,
            m as int,
            midds_samples@[q],
        ) by {
            assert(ids@.contains(midds_samples@[q]));
            let p = choose|p: int| 0 <= p < ids@.len() && ids@[p] == midds_samples@[q];
            assert(s[m + p] == WorkRef::Midds(ids@[p]));
            assert(m <= m + p < s.len());
        }
        assert forall|j: int| 0 <= j < picked.len() implies (#[trigger] s[j] matches WorkRef::Iswc(x)
            && x@ == iswc_for_code(picked[j] as nat)) by {
            assert(picked[j] == codes@[end + j]);
        }
    }
    let samples: Bounded<WorkRef, 64> = bound(samples);
    let r = MusicalWorkV1 {
        iswc,
        title,
        creation_year,
        instrumental,
        language,
        explicit_lyrics,
        bpm,
        key,
        work_type,
        samples,
        creators,
        classical_info,
        offchain_extension,
    };
    proof {
        assert(end as int == sources_end(kind, codes@.len()) as int);
        assert(m as int == (if n_samples < codes@.len() - end {
            n_samples as int
        } else {
            codes@.len() - end
        }));
        assert(r.samples@ == s);
        assert(picked.len() == m as int);
        assert(samples_from(s, picked, midds_samples@));
        let own = iswc@;
        if codes_name_distinct_works(codes@) {
            lemma_iswc_for_code_valid(codes@[0] as nat);
            assert(codes_name_other_works(sources@, own)) by {
                assert forall|q: int| 0 <= q < sources@.len() implies iswc_for_code(
                    #[trigger] sources@[q] as nat,
                ) != own by {
                    assert(sources@[q] == codes@[1 + q]);
                }
                assert forall|a: int, b: int| 0 <= a < b < sources@.len() implies iswc_for_code(
                    #[trigger] sources@[a] as nat,
                ) != iswc_for_code(#[trigger] sources@[b] as nat) by {
                    assert(sources@[a] == codes@[1 + a]);
                    assert(sources@[b] == codes@[1 + b]);
                }
            }
            assert(work_type_check(r.work_type, own) is Ok);
            let h = sample_rule(s, own);
            assert forall|q: int| 0 <= q < s.len() implies #[trigger] h(q) is Ok by {
                if q < m {
                    lemma_iswc_for_code_valid(codes@[end + q] as nat);
                    assert(s[q] matches WorkRef::Iswc(x) && x@ == iswc_for_code(codes@[end + q] as nat));
                    assert(iswc_for_code(codes@[0] as nat) != iswc_for_code(codes@[end + q] as nat));
                    assert forall|j: int| 0 <= j < q implies !same_work_ref(s[j], s[q]) by {
                        assert(iswc_for_code(codes@[end + j] as nat) != iswc_for_code(
                            codes@[end + q] as nat,
                        ));
                    }
                } else {
                    assert(s[q] is Midds);
                    assert forall|j: int| 0 <= j < q implies !same_work_ref(s[j], s[q]) by {
                        if j >= m {
                            assert(s[j] != s[q]);
                        }
                    }
                }
            }
            lemma_first_failure_all_ok(0, s.len() as int, h);
        }
    }
    r
}

/// A recording from drawn pieces, taken as given; `genres` sets the genre
/// and, within it, the optional sub-genre. The recording passes
/// `validate_format` whenever every piece passes its own rule.
pub fn recording_v1_from(
    isrc: Isrc,
    title: Bounded<u8, 256>,
    aliases: Vec<Bounded<u8, 256>>,
    artist: PartyId,
    featuring: Vec<PartyId>,
    work: WorkRef,
    genres: Option<(Genre, Option<Genre>)>,
    record_year: Option<u16>,
    version_type: Option<RecordingVersion>,
    performers: Vec<Performer>,
    producers: Vec<Isni>,
    duration: Option<u32>,
    bpm: Option<u16>,
    key: Option<MusicalKey>,
    places: Option<ProductionPlaces>,
    contributors: Vec<PartyId>,
    offchain_extension: Option<OffchainHash>,
) -> (r: RecordingV1)
    requires
        aliases@.len() <= 8,
        featuring@.len() <= 16,
        performers@.len() <= 64,
        producers@.len() <= 8,
        contributors@.len() <= 32,
    ensures
        r.isrc == isrc && r.title == title && r.artist == artist && r.work == work,
        r.record_year == record_year && r.version_type == version_type && r.duration == duration,
        r.bpm == bpm && r.key == key && r.places == places,
        r.offchain_extension == offchain_extension,
        r.title_aliases@ == aliases@ && r.featuring@ == featuring@,
        r.performers@ == performers@ && r.producers@ == producers@,
        r.contributors@ == contributors@,
        match genres {
            Some((g, sub)) => r.genre == Some(g) && r.sub_genre == sub,
            None => r.genre is None && r.sub_genre is None,
        },
        isrc_format(isrc@) is Ok && non_empty_check(title@) is Ok && texts_check(aliases@) is Ok
            && year_check(record_year) is Ok && bpm_check(bpm) is Ok && party_id_check(artist) is Ok
            && parties_check(featuring@) is Ok && work_ref_check(work) is Ok && performers_check(
            performers@,
        ) is Ok && isnis_check(producers@) is Ok && parties_check(contributors@) is Ok
            && places_opt_check(places) is Ok && offchain_opt_check(offchain_extension) is Ok
            ==> recording_v1_check(r) is Ok,
{
    let (genre, sub_genre) = match genres {
        Some((g, sub)) => (Some(g), sub),
        None => (None, None),
    };
    let r = RecordingV1 {
        isrc,
        title,
        title_aliases: bound(aliases),
        artist,
        featuring: bound(featuring),
        work,
        genre,
        sub_genre,
        record_year,
        version_type,
        performers: bound(performers),
        producers: bound(producers),
        duration,
        bpm,
        key,
        places,
        contributors: bound(contributors),
        offchain_extension,
    };
    proof {
        assert(genre_check(r.genre, r.sub_genre) is Ok);
    }
    r
}

/// A release from drawn pieces, taken as given but for its tracklist,
/// which `tracklist_from` builds from `track_refs`. The release passes
/// `validate_format` whenever `track_refs` is non-empty with every
/// reference well-formed and every other piece passes its own rule.
pub fn release_v1_from(
    upc: Upc,
    title: Bounded<u8, 256>,
    aliases: Vec<Bounded<u8, 256>>,
    artist: PartyId,
    featuring: Vec<PartyId>,
    track_refs: Vec<RecordingRef>,
    producers: Vec<Producer>,
    status: ReleaseStatus,
    release_date: ReleaseDate,
    country: Country,
    distributor_name: Bounded<u8, 128>,
    release_type: ReleaseType,
    format: ReleaseFormat,
    packaging: ReleasePackaging,
    covers: Vec<Bounded<u8, 128>>,
    offchain_extension: Option<OffchainHash>,
) -> (r: ReleaseV1)
    requires
        aliases@.len() <= 8,
        featuring@.len() <= 16,
        track_refs@.len() <= 256,
        producers@.len() <= 16,
        covers@.len() <= 16,
    ensures
        r.upc == upc && r.title == title && r.artist == artist && r.status == status,
        r.release_date == release_date && r.country == country,
        r.distributor_name == distributor_name && r.release_type == release_type,
        r.format == format && r.packaging == packaging,
        r.offchain_extension == offchain_extension,
        r.title_aliases@ == aliases@ && r.featuring@ == featuring@,
        r.producers@ == producers@ && r.cover_contributors@ == covers@,
        r.tracks@.len() <= track_refs@.len(),
        forall|k: int|
            0 <= k < r.tracks@.len() ==> (#[trigger] r.tracks@[k]).number == k + 1
                && track_refs@.contains(r.tracks@[k].recording),
        forall|k: int|
            0 <= k < track_refs@.len() ==> lists_recording(
                r.tracks@.map_values(|t: Track| t.recording),
                #[trigger] track_refs@[k],
            ),
        upc_format(upc@) is Ok && non_empty_check(title@) is Ok && texts_check(aliases@) is Ok
            && party_id_check(artist) is Ok && parties_check(featuring@) is Ok && track_refs@.len()
            > 0 && (forall|k: int|
            0 <= k < track_refs@.len() ==> recording_ref_check(#[trigger] track_refs@[k]) is Ok)
            && producers_check(producers@) is Ok && release_date_check(release_date) is Ok
            && non_empty_check(distributor_name@) is Ok && texts_check(covers@) is Ok
            && offchain_opt_check(offchain_extension) is Ok ==> release_v1_check(r) is Ok,
{
    let tracks = tracklist_from(track_refs);
    ReleaseV1 {
        upc,
        title,
        title_aliases: bound(aliases),
        artist,
        featuring: bound(featuring),
        tracks,
        producers: bound(producers),
        status,
        release_date,
        country,
        distributor_name,
        release_type,
        format,
        packaging,
        cover_contributors: bound(covers),
        offchain_extension,
    }
}

} // verus!
