//! What the seeded generators produce, as a function of the generator's
//! state (seed and stream position).
//!
//! Each `*_draw` function follows one generator draw by draw and returns
//! the part of the payload it fixes together with the state after it. The
//! `*_drawn` predicates say that a payload is the one the draws from a
//! state produce, and the `same_*` predicates that two payloads agree byte
//! for byte; the reproducibility laws follow from the two.
use vstd::prelude::*;

use crate::fixtures::identifiers::{ipi_for_stem, isni_for_body, iswc_for_code};
use crate::fixtures::musical_work::role_pool;
use crate::fixtures::recording::{genre_pool, version_pool};
use crate::fixtures::release::{
    country_pool, format_pool, independent_distributor, packaging_pool, status_pool, type_pool,
};
use crate::fixtures::rng::{draw_between, draw_bool, draw_u64, repeat};
use crate::language::Language;
use crate::musical_work::{Creator, CreatorRole, CreatorRoles, MusicalWork, WorkType};
use crate::recording::{Genre, Performer, Recording, RecordingVersion};
use crate::release::{Producer, Release, ReleaseDate, Track};
use crate::shared::{Mode, MusicalKey, PartyId, PerformerId, PitchClass, RecordingRef, WorkRef};

verus! {

/// Byte `c` of the fixture text alphabet `abcdefghijklmnopqrstuvwxyz `.
pub open spec fn text_byte(c: u32) -> u8 {
    if c < 26 {
        (97 + c) as u8
    } else {
        32u8
    }
}

/// One text character: a draw of `0..=26` mapped onto the alphabet.
pub open spec fn text_char_draw(s: (u64, nat)) -> (u8, (u64, nat)) {
    let (c, t) = draw_between(s, 0, 26);
    (text_byte(c), t)
}

/// `n` text characters.
pub open spec fn text_draw(s: (u64, nat), n: nat) -> (Seq<u8>, (u64, nat)) {
    repeat(s, n, |t: (u64, nat)| text_char_draw(t))
}

/// A text whose length is first drawn from `low..=high`.
pub open spec fn sized_text_draw(s: (u64, nat), low: u32, high: u32) -> (Seq<u8>, (u64, nat)) {
    let (n, t) = draw_between(s, low, high);
    text_draw(t, n as nat)
}

/// One decimal digit value.
pub open spec fn digit_draw(s: (u64, nat)) -> (u8, (u64, nat)) {
    let (d, t) = draw_between(s, 0, 9);
    (d as u8, t)
}

/// One ASCII decimal digit.
pub open spec fn digit_byte_draw(s: (u64, nat)) -> (u8, (u64, nat)) {
    let (d, t) = draw_between(s, 0, 9);
    ((48 + d) as u8, t)
}

/// A random IPI: its length in `9..=11`, then its stem.
pub open spec fn ipi_draw(s: (u64, nat)) -> (Seq<u8>, (u64, nat)) {
    let (len, t) = draw_between(s, 9, 11);
    let (stem, u) = draw_u64(t);
    (ipi_for_stem(stem as nat, len as nat), u)
}

/// A random ISNI: fifteen digit values, then the check character.
pub open spec fn isni_draw(s: (u64, nat)) -> (Seq<u8>, (u64, nat)) {
    let (body, t) = repeat(s, 15, |x: (u64, nat)| digit_draw(x));
    (isni_for_body(body), t)
}

/// The ISRC country code of pool position `c`.
pub open spec fn isrc_country(c: u32) -> Seq<u8> {
    if c == 0 {
        seq![85u8, 83]
    } else if c == 1 {
        seq![71u8, 66]
    } else if c == 2 {
        seq![70u8, 82]
    } else if c == 3 {
        seq![68u8, 69]
    } else if c == 4 {
        seq![74u8, 80]
    } else if c == 5 {
        seq![66u8, 82]
    } else if c == 6 {
        seq![78u8, 76]
    } else if c == 7 {
        seq![67u8, 65]
    } else if c == 8 {
        seq![65u8, 85]
    } else {
        seq![83u8, 69]
    }
}

/// Byte `a` of `A..Z0..9`.
pub open spec fn alnum_byte(a: u32) -> u8 {
    if a < 26 {
        (65 + a) as u8
    } else {
        (48 + (a - 26)) as u8
    }
}

/// One uppercase alphanumeric character.
pub open spec fn alnum_draw(s: (u64, nat)) -> (u8, (u64, nat)) {
    let (a, t) = draw_between(s, 0, 35);
    (alnum_byte(a), t)
}

/// A random ISRC: a country, three alphanumerics, seven digits.
pub open spec fn isrc_draw(s: (u64, nat)) -> (Seq<u8>, (u64, nat)) {
    let (c, t) = draw_between(s, 0, 9);
    let (al, u) = repeat(t, 3, |x: (u64, nat)| alnum_draw(x));
    let (ds, w) = repeat(u, 7, |x: (u64, nat)| digit_byte_draw(x));
    (isrc_country(c) + al + ds, w)
}

/// A party as bytes: `0` and the IPI, `1` and the ISNI, or `2` and both.
pub open spec fn party_view(p: PartyId) -> (u8, Seq<u8>, Seq<u8>) {
    match p {
        PartyId::Ipi(x) => (0u8, x@, seq![]),
        PartyId::Isni(x) => (1u8, x@, seq![]),
        PartyId::Both { ipi, isni } => (2u8, ipi@, isni@),
    }
}

/// A random party: an IPI on heads, an ISNI on tails.
pub open spec fn party_draw(s: (u64, nat)) -> ((u8, Seq<u8>, Seq<u8>), (u64, nat)) {
    let (b, t) = draw_bool(s);
    if b {
        let (x, u) = ipi_draw(t);
        ((0u8, x, seq![]), u)
    } else {
        let (x, u) = isni_draw(t);
        ((1u8, x, seq![]), u)
    }
}

/// The set holding only `role`.
pub open spec fn roles_of(role: CreatorRole) -> CreatorRoles {
    CreatorRoles {
        author: role == CreatorRole::Author,
        composer: role == CreatorRole::Composer,
        arranger: role == CreatorRole::Arranger,
        adapter: role == CreatorRole::Adapter,
        publisher: role == CreatorRole::Publisher,
    }
}

/// A creator as its roles and its party's bytes.
pub open spec fn creator_view(c: Creator) -> (CreatorRoles, (u8, Seq<u8>, Seq<u8>)) {
    (c.roles, party_view(c.party))
}

/// A random creator: one role, then a party.
pub open spec fn creator_draw(s: (u64, nat)) -> ((CreatorRoles, (u8, Seq<u8>, Seq<u8>)), (u64, nat)) {
    let (k, t) = draw_between(s, 0, 4);
    let (p, u) = party_draw(t);
    ((roles_of(role_pool(k as int)), p), u)
}

/// The drawn parts of a random musical work: title, creators, year and
/// bpm, in draw order.
pub open spec fn musical_work_draw(s: (u64, nat)) -> (
    (Seq<u8>, Seq<(CreatorRoles, (u8, Seq<u8>, Seq<u8>))>, u16, u16),
    (u64, nat),
) {
    let (title, s1) = sized_text_draw(s, 8, 64);
    let (n, s2) = draw_between(s1, 1, 3);
    let (creators, s3) = repeat(s2, n as nat, |x: (u64, nat)| creator_draw(x));
    let (year, s4) = draw_between(s3, 1900, 2025);
    let (bpm, s5) = draw_between(s4, 40, 240);
    ((title, creators, year as u16, bpm as u16), s5)
}

/// `w` is the musical work the draws from `s` produce for `index`: the ISWC
/// of `index`, the drawn title, creators, year and bpm, English, C major,
/// not instrumental, no explicit lyrics, an original with no samples,
/// classical information or off-chain extension.
pub open spec fn musical_work_drawn(w: MusicalWork, s: (u64, nat), index: u32) -> bool {
    let d = musical_work_draw(s).0;
    w matches MusicalWork::V1(v) && {
        &&& v.iswc@ == iswc_for_code(index as nat)
        &&& v.title@ == d.0
        &&& v.creators@.map_values(|c: Creator| creator_view(c)) == d.1
        &&& v.creation_year == Some(d.2) && v.bpm == Some(d.3)
        &&& !v.instrumental && !v.explicit_lyrics && v.language == Some(Language::En)
        &&& v.key == Some(MusicalKey { pitch: PitchClass::C, mode: Mode::Major })
        &&& v.work_type == WorkType::Original && v.samples@.len() == 0
        &&& v.classical_info is None && v.offchain_extension is None
    }
}

/// `a` and `b` are the same work byte for byte, as far as generated works
/// go: same ISWC, title, creators, year, bpm, language, key and flags, both
/// originals without samples, classical information or extension.
pub open spec fn same_generated_work(a: MusicalWork, b: MusicalWork) -> bool {
    a matches MusicalWork::V1(x) && b matches MusicalWork::V1(y) && {
        &&& x.iswc@ == y.iswc@ && x.title@ == y.title@
        &&& x.creators@.map_values(|c: Creator| creator_view(c)) == y.creators@.map_values(
            |c: Creator| creator_view(c),
        )
        &&& x.creation_year == y.creation_year && x.bpm == y.bpm && x.language == y.language
        &&& x.key == y.key && x.instrumental == y.instrumental
        &&& x.explicit_lyrics == y.explicit_lyrics && x.work_type == y.work_type
        &&& x.samples@ =~= y.samples@ && x.classical_info == y.classical_info
        &&& x.offchain_extension == y.offchain_extension
    }
}

/// The state before work `i` of a batch generated from `seed`.
pub open spec fn musical_work_state(seed: u64, i: nat) -> (u64, nat)
    decreases i,
{
    if i == 0 {
        (seed, 0nat)
    } else {
        musical_work_draw(musical_work_state(seed, (i - 1) as nat)).1
    }
}

/// A performer identifier as bytes: `0` IPI, `1` ISNI, `2` IPN.
pub open spec fn performer_id_view(p: PerformerId) -> (u8, Seq<u8>) {
    match p {
        PerformerId::Ipi(x) => (0u8, x@),
        PerformerId::Isni(x) => (1u8, x@),
        PerformerId::Ipn(x) => (2u8, x@),
    }
}

/// A performer as its identifier's bytes and its instruments.
pub open spec fn performer_view(p: Performer) -> ((u8, Seq<u8>), Seq<crate::recording::Instrument>) {
    (performer_id_view(p.id), p.instruments@)
}

/// A random performer: an IPI on heads, an ISNI on tails, no instrument.
pub open spec fn performer_draw(s: (u64, nat)) -> (
    ((u8, Seq<u8>), Seq<crate::recording::Instrument>),
    (u64, nat),
) {
    let (b, t) = draw_bool(s);
    if b {
        let (x, u) = ipi_draw(t);
        (((0u8, x), seq![]), u)
    } else {
        let (x, u) = isni_draw(t);
        (((1u8, x), seq![]), u)
    }
}

/// A work reference as bytes: the ISWC, or the on-chain id.
pub open spec fn work_ref_view(w: WorkRef) -> (bool, Seq<u8>, u64) {
    match w {
        WorkRef::Iswc(x) => (true, x@, 0u64),
        WorkRef::Midds(m) => (false, seq![], m),
    }
}

/// A random work reference: on heads the ISWC of a drawn work code, on
/// tails a drawn on-chain id.
pub open spec fn work_ref_draw(s: (u64, nat)) -> ((bool, Seq<u8>, u64), (u64, nat)) {
    let (b, t) = draw_bool(s);
    if b {
        let (code, u) = draw_between(t, 0, u32::MAX);
        ((true, iswc_for_code(code as nat), 0u64), u)
    } else {
        let (m, u) = draw_u64(t);
        ((false, seq![], m), u)
    }
}

/// The drawn parts of a random recording, in draw order.
pub open spec fn recording_draw(s: (u64, nat)) -> (
    (
        Seq<u8>,
        (u8, Seq<u8>, Seq<u8>),
        (bool, Seq<u8>, u64),
        Seq<Genre>,
        Seq<((u8, Seq<u8>), Seq<crate::recording::Instrument>)>,
        Seq<Seq<u8>>,
        Seq<(u8, Seq<u8>, Seq<u8>)>,
        (u16, RecordingVersion, u32, u16),
    ),
    (u64, nat),
) {
    let (title, s1) = sized_text_draw(s, 8, 64);
    let (artist, s2) = party_draw(s1);
    let (work, s3) = work_ref_draw(s2);
    let (ng, s4) = draw_between(s3, 0, 2);
    let (genres, s5) = repeat(s4, ng as nat, |x: (u64, nat)| genre_draw(x));
    let (np, s6) = draw_between(s5, 0, 3);
    let (performers, s7) = repeat(s6, np as nat, |x: (u64, nat)| performer_draw(x));
    let (nq, s8) = draw_between(s7, 0, 2);
    let (producers, s9) = repeat(s8, nq as nat, |x: (u64, nat)| isni_draw(x));
    let (nc, s10) = draw_between(s9, 0, 2);
    let (contributors, s11) = repeat(s10, nc as nat, |x: (u64, nat)| party_draw(x));
    let (year, s12) = draw_between(s11, 1900, 2025);
    let (version, s13) = version_draw(s12);
    let (duration, s14) = draw_between(s13, 30, 600);
    let (bpm, s15) = draw_between(s14, 40, 240);
    (
        (
            title,
            artist,
            work,
            genres,
            performers,
            producers,
            contributors,
            (year as u16, version, duration, bpm as u16),
        ),
        s15,
    )
}

/// A random genre among ten.
pub open spec fn genre_draw(s: (u64, nat)) -> (Genre, (u64, nat)) {
    let (k, t) = draw_between(s, 0, 9);
    (genre_pool(k as int), t)
}

/// A random editorial version among six.
pub open spec fn version_draw(s: (u64, nat)) -> (RecordingVersion, (u64, nat)) {
    let (k, t) = draw_between(s, 0, 5);
    (version_pool(k as int), t)
}

/// `r` is the recording the draws from `s` produce for `index`: the ISRC of
/// `index`, the drawn title, artist, work, genres (the first as genre, the
/// second as sub-genre), performers, producers, contributors, year,
/// version, duration and bpm, in C major, with no alias, featured artist,
/// places or off-chain extension.
pub open spec fn recording_drawn(r: Recording, s: (u64, nat), index: u32) -> bool {
    let d = recording_draw(s).0;
    r matches Recording::V1(v) && {
        &&& v.isrc@ == crate::fixtures::identifiers::isrc_for(index as nat)
        &&& v.title@ == d.0 && party_view(v.artist) == d.1 && work_ref_view(v.work) == d.2
        &&& v.genre == (if d.3.len() >= 1 {
            Some(d.3[0])
        } else {
            None
        })
        &&& v.sub_genre == (if d.3.len() >= 2 {
            Some(d.3[1])
        } else {
            None
        })
        &&& v.performers@.map_values(|p: Performer| performer_view(p)) == d.4
        &&& v.producers@.map_values(|x: crate::identifier::Isni| x@) == d.5
        &&& v.contributors@.map_values(|p: PartyId| party_view(p)) == d.6
        &&& v.record_year == Some(d.7.0) && v.version_type == Some(d.7.1)
        &&& v.duration == Some(d.7.2) && v.bpm == Some(d.7.3)
        &&& v.key == Some(MusicalKey { pitch: PitchClass::C, mode: Mode::Major })
        &&& v.title_aliases@.len() == 0 && v.featuring@.len() == 0
        &&& v.places is None && v.offchain_extension is None
    }
}

/// `a` and `b` are the same recording byte for byte, as far as generated
/// recordings go.
pub open spec fn same_generated_recording(a: Recording, b: Recording) -> bool {
    a matches Recording::V1(x) && b matches Recording::V1(y) && {
        &&& x.isrc@ == y.isrc@ && x.title@ == y.title@
        &&& party_view(x.artist) == party_view(y.artist)
        &&& work_ref_view(x.work) == work_ref_view(y.work)
        &&& x.genre == y.genre && x.sub_genre == y.sub_genre
        &&& x.performers@.map_values(|p: Performer| performer_view(p)) == y.performers@.map_values(
            |p: Performer| performer_view(p),
        )
        &&& x.producers@.map_values(|i: crate::identifier::Isni| i@) == y.producers@.map_values(
            |i: crate::identifier::Isni| i@,
        )
        &&& x.contributors@.map_values(|p: PartyId| party_view(p)) == y.contributors@.map_values(
            |p: PartyId| party_view(p),
        )
        &&& x.record_year == y.record_year && x.version_type == y.version_type
        &&& x.duration == y.duration && x.bpm == y.bpm && x.key == y.key
        &&& x.title_aliases@ =~= y.title_aliases@ && x.featuring@ =~= y.featuring@
        &&& x.places == y.places && x.offchain_extension == y.offchain_extension
    }
}

/// The state before recording `i` of a batch generated from `seed`.
pub open spec fn recording_state(seed: u64, i: nat) -> (u64, nat)
    decreases i,
{
    if i == 0 {
        (seed, 0nat)
    } else {
        recording_draw(recording_state(seed, (i - 1) as nat)).1
    }
}

/// A recording reference as bytes: the ISRC, or the on-chain id.
pub open spec fn recording_ref_view(r: RecordingRef) -> (bool, Seq<u8>, u64) {
    match r {
        RecordingRef::Isrc(x) => (true, x@, 0u64),
        RecordingRef::Midds(m) => (false, seq![], m),
    }
}

/// A random track target: an ISRC on heads, an on-chain id on tails.
pub open spec fn track_ref_draw(s: (u64, nat)) -> ((bool, Seq<u8>, u64), (u64, nat)) {
    let (b, t) = draw_bool(s);
    if b {
        let (x, u) = isrc_draw(t);
        ((true, x, 0u64), u)
    } else {
        let (m, u) = draw_u64(t);
        ((false, seq![], m), u)
    }
}

/// A producer as its ISNI and catalog number bytes.
pub open spec fn producer_view(p: Producer) -> (Seq<u8>, Seq<u8>) {
    (p.isni@, p.catalog_number@)
}

/// A random producer: a catalog number of `1..=12` digits, then an ISNI.
pub open spec fn producer_draw(s: (u64, nat)) -> ((Seq<u8>, Seq<u8>), (u64, nat)) {
    let (n, t) = draw_between(s, 1, 12);
    let (cat, u) = repeat(t, n as nat, |x: (u64, nat)| digit_byte_draw(x));
    let (isni, w) = isni_draw(u);
    ((isni, cat), w)
}

/// The drawn parts of a random release, in draw order.
pub open spec fn release_draw(s: (u64, nat)) -> (
    (
        Seq<u8>,
        (u8, Seq<u8>, Seq<u8>),
        Seq<(bool, Seq<u8>, u64)>,
        Seq<(Seq<u8>, Seq<u8>)>,
        Seq<Seq<u8>>,
        (crate::release::ReleaseStatus, ReleaseDate),
        (
            crate::country::Country,
            crate::release::ReleaseType,
            crate::release::ReleaseFormat,
            crate::release::ReleasePackaging,
        ),
    ),
    (u64, nat),
) {
    let (title, s1) = sized_text_draw(s, 8, 64);
    let (artist, s2) = party_draw(s1);
    let (nt, s3) = draw_between(s2, 1, 12);
    let (refs, s4) = repeat(s3, nt as nat, |x: (u64, nat)| track_ref_draw(x));
    let (np, s5) = draw_between(s4, 0, 2);
    let (producers, s6) = repeat(s5, np as nat, |x: (u64, nat)| producer_draw(x));
    let (nc, s7) = draw_between(s6, 0, 2);
    let (covers, s8) = repeat(s7, nc as nat, |x: (u64, nat)| sized_text_draw(x, 4, 24));
    let (st, s9) = draw_between(s8, 0, 4);
    let (year, s10) = draw_between(s9, 1900, 2025);
    let (month, s11) = draw_between(s10, 1, 12);
    let (day, s12) = draw_between(s11, 1, 28);
    let (c, s13) = draw_between(s12, 0, 7);
    let (ty, s14) = draw_between(s13, 0, 5);
    let (f, s15) = draw_between(s14, 0, 5);
    let (pk, s16) = draw_between(s15, 0, 4);
    (
        (
            title,
            artist,
            refs,
            producers,
            covers,
            (
                status_pool(st as int),
                ReleaseDate { year: year as u16, month: month as u8, day: day as u8 },
            ),
            (
                country_pool(c as int),
                type_pool(ty as int),
                format_pool(f as int),
                packaging_pool(pk as int),
            ),
        ),
        s16,
    )
}

/// `r` is the release the draws from `s` produce for UPC `upc`: the drawn
/// title, artist, tracks (numbered `1, 2, …` in draw order), producers,
/// cover credits, status, date, country, type, format and packaging, the
/// distributor `Independent Distributor`, and no alias, featured artist or
/// off-chain extension.
pub open spec fn release_drawn(r: Release, s: (u64, nat), upc: Seq<u8>) -> bool {
    let d = release_draw(s).0;
    r matches Release::V1(v) && {
        &&& v.upc@ == upc
        &&& v.title@ == d.0 && party_view(v.artist) == d.1
        &&& v.tracks@.len() == d.2.len()
        &&& forall|k: int|
            0 <= k < d.2.len() ==> (#[trigger] v.tracks@[k]).number == k + 1 && recording_ref_view(
                v.tracks@[k].recording,
            ) == d.2[k]
        &&& v.producers@.map_values(|p: Producer| producer_view(p)) == d.3
        &&& v.cover_contributors@.map_values(|c: crate::bounded::Bounded<u8, 128>| c@) == d.4
        &&& v.status == d.5.0 && v.release_date == d.5.1
        &&& v.country == d.6.0 && v.release_type == d.6.1 && v.format == d.6.2
        &&& v.packaging == d.6.3
        &&& v.distributor_name@ == independent_distributor()
        &&& v.title_aliases@.len() == 0 && v.featuring@.len() == 0
        &&& v.offchain_extension is None
    }
}

/// `a` and `b` are the same release byte for byte, as far as generated
/// releases go.
pub open spec fn same_generated_release(a: Release, b: Release) -> bool {
    a matches Release::V1(x) && b matches Release::V1(y) && {
        &&& x.upc@ == y.upc@ && x.title@ == y.title@
        &&& party_view(x.artist) == party_view(y.artist)
        &&& x.tracks@.len() == y.tracks@.len()
        &&& forall|k: int|
            0 <= k < x.tracks@.len() ==> (#[trigger] x.tracks@[k]).number == y.tracks@[k].number
                && recording_ref_view(x.tracks@[k].recording) == recording_ref_view(
                y.tracks@[k].recording,
            )
        &&& x.producers@.map_values(|p: Producer| producer_view(p)) == y.producers@.map_values(
            |p: Producer| producer_view(p),
        )
        &&& x.cover_contributors@.map_values(|c: crate::bounded::Bounded<u8, 128>| c@)
            == y.cover_contributors@.map_values(|c: crate::bounded::Bounded<u8, 128>| c@)
        &&& x.status == y.status && x.release_date == y.release_date && x.country == y.country
        &&& x.release_type == y.release_type && x.format == y.format && x.packaging
            == y.packaging
        &&& x.distributor_name@ == y.distributor_name@
        &&& x.title_aliases@ =~= y.title_aliases@ && x.featuring@ =~= y.featuring@
        &&& x.offchain_extension == y.offchain_extension
    }
}

/// The state before release `i` of a batch generated from `seed`.
pub open spec fn release_state(seed: u64, i: nat) -> (u64, nat)
    decreases i,
{
    if i == 0 {
        (seed, 0nat)
    } else {
        release_draw(release_state(seed, (i - 1) as nat)).1
    }
}

} // verus!
