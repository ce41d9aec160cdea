//! Parser-tolerant builder for `Recording::V1`.
use vstd::prelude::*;
use vstd::string::StringExecFns;
use vstd::utf8::encode_utf8;

use crate::bounded::Bounded;
use crate::builder::{
    alias_errors, appended, bounded_text, build_title_aliases, check_count, count_errors,
    errors_view, index_prefix, index_prefix_string, ipi_text, ipn_text, isni_text, isrc_text,
    iswc_text, offchain_errors, offchain_hash, opt_text, parse_errors, parse_party,
    parse_party_list, party_built, party_list_errors, party_outcome, push_parse_error,
    text_errors, trimmed_text, valid_aliases, valid_parties, FieldErrorView, PartyDraft,
    PartyInput, PartyKind,
};
use crate::error::{BuildError, FieldError, ParseError};
use crate::identifier::Isni;
use crate::parse::{parse_ipi, parse_ipn, parse_isni, parse_isrc, parse_iswc};
use crate::recording::{
    Genre, Performer, Performers, Place, Producers, ProductionPlaces, Recording,
    RecordingV1, RecordingVersion,
};
use crate::shared::{MusicalKey, PerformerId, WorkRef};

verus! {

/// Model of the recorded-work input.
pub enum WorkDraft {
    /// By on-chain MIDDS id (no parsing).
    Midds(u64),
    /// By free-form ISWC text.
    Iswc(Seq<char>),
}

/// Registry a raw performer identifier is read against.
#[derive(Debug, Clone, Copy, PartialEq, Eq, Structural)]
pub enum PerformerKind {
    /// An International Performer Number.
    Ipn,
    /// An IPI Name Number.
    Ipi,
    /// An ISNI.
    Isni,
}

/// Model of a performer input.
pub struct PerformerDraft {
    pub raw: Seq<char>,
    pub kind: PerformerKind,
}

/// Model of the production-places input.
pub struct PlacesDraft {
    pub recording: Option<Seq<char>>,
    pub mixing: Option<Seq<char>>,
    pub mastering: Option<Seq<char>>,
}

/// Model of a [`RecordingBuilder`]: the inputs it holds, as typed.
pub struct RecordingDraft {
    pub isrc: Option<Seq<char>>,
    pub title: Option<Seq<char>>,
    pub title_aliases: Seq<Seq<char>>,
    pub artist: Option<PartyDraft>,
    pub work: Option<WorkDraft>,
    pub genres: Seq<Genre>,
    pub record_year: Option<u16>,
    pub version_type: Option<RecordingVersion>,
    pub performers: Seq<PerformerDraft>,
    pub producers: Seq<Seq<char>>,
    pub duration: Option<u32>,
    pub bpm: Option<u16>,
    pub key: Option<MusicalKey>,
    pub places: Option<PlacesDraft>,
    pub contributors: Seq<PartyDraft>,
    pub offchain_extension: Option<Seq<char>>,
}

/// How the recorded work was referenced by the user.
#[derive(Debug, Clone)]
enum WorkInput {
    Midds(u64),
    Iswc(String),
}

impl View for WorkInput {
    type V = WorkDraft;

    closed spec fn view(&self) -> WorkDraft {
        match self {
            WorkInput::Midds(id) => WorkDraft::Midds(*id),
            WorkInput::Iswc(s) => WorkDraft::Iswc(s@),
        }
    }
}

/// A raw performer identifier typed by the user.
#[derive(Debug, Clone)]
struct PerformerInput {
    raw: String,
    kind: PerformerKind,
}

impl View for PerformerInput {
    type V = PerformerDraft;

    closed spec fn view(&self) -> PerformerDraft {
        PerformerDraft { raw: self.raw@, kind: self.kind }
    }
}

/// Raw production-place inputs.
#[derive(Debug, Clone)]
struct PlacesInput {
    recording: Option<String>,
    mixing: Option<String>,
    mastering: Option<String>,
}

impl View for PlacesInput {
    type V = PlacesDraft;

    closed spec fn view(&self) -> PlacesDraft {
        PlacesDraft {
            recording: opt_text(self.recording),
            mixing: opt_text(self.mixing),
            mastering: opt_text(self.mastering),
        }
    }
}

/// Parser-tolerant builder for `Recording::V1`.
///
/// Free-form inputs are stored verbatim and parsed / validated only by
/// [`build`](Self::build), where every failing field surfaces as a
/// [`FieldError`] inside `BuildError::Fields`. Mandatory inputs: `isrc`,
/// `title`, `artist` and `work`.
#[derive(Debug, Clone)]
pub struct RecordingBuilder {
    isrc_raw: Option<String>,
    title_raw: Option<String>,
    title_aliases_raw: Vec<String>,
    artist: Option<PartyInput>,
    work: Option<WorkInput>,
    genres: Vec<Genre>,
    record_year: Option<u16>,
    version_type: Option<RecordingVersion>,
    performers_raw: Vec<PerformerInput>,
    producers_raw: Vec<String>,
    duration: Option<u32>,
    bpm: Option<u16>,
    key: Option<MusicalKey>,
    places_raw: Option<PlacesInput>,
    contributors_raw: Vec<PartyInput>,
    offchain_extension_raw: Option<String>,
}

impl View for RecordingBuilder {
    type V = RecordingDraft;

    closed spec fn view(&self) -> RecordingDraft {
        RecordingDraft {
            isrc: opt_text(self.isrc_raw),
            title: opt_text(self.title_raw),
            title_aliases: self.title_aliases_raw@.map_values(|s: String| s@),
            artist: match self.artist {
                Some(a) => Some(a@),
                None => None,
            },
            work: match self.work {
                Some(w) => Some(w@),
                None => None,
            },
            genres: self.genres@,
            record_year: self.record_year,
            version_type: self.version_type,
            performers: self.performers_raw@.map_values(|p: PerformerInput| p@),
            producers: self.producers_raw@.map_values(|s: String| s@),
            duration: self.duration,
            bpm: self.bpm,
            key: self.key,
            places: match self.places_raw {
                Some(p) => Some(p@),
                None => None,
            },
            contributors: self.contributors_raw@.map_values(|p: PartyInput| p@),
            offchain_extension: opt_text(self.offchain_extension_raw),
        }
    }
}

/// Diagnostics of the recorded-work input.
pub open spec fn work_errors(w: WorkDraft) -> Seq<FieldErrorView> {
    match w {
        WorkDraft::Midds(_) => seq![],
        WorkDraft::Iswc(raw) => parse_errors("work"@, seq![], raw, iswc_text(raw)),
    }
}

/// The recorded-work input resolves.
pub open spec fn work_valid(w: WorkDraft) -> bool {
    match w {
        WorkDraft::Midds(_) => true,
        WorkDraft::Iswc(raw) => iswc_text(raw) is Ok,
    }
}

/// `r` is the reference resolved from `w`.
pub open spec fn work_built(w: WorkDraft, r: WorkRef) -> bool {
    match w {
        WorkDraft::Midds(id) => r == WorkRef::Midds(id),
        WorkDraft::Iswc(raw) => r matches WorkRef::Iswc(v) && v@ == iswc_text(raw)->Ok_0,
    }
}

/// Parse outcome of a performer input.
pub open spec fn performer_outcome(d: PerformerDraft) -> Result<Seq<u8>, ParseError> {
    match d.kind {
        PerformerKind::Ipn => ipn_text(d.raw),
        PerformerKind::Ipi => ipi_text(d.raw),
        PerformerKind::Isni => isni_text(d.raw),
    }
}

/// `p` is the performer built from a valid performer input (no instrument
/// listed).
pub open spec fn performer_built(d: PerformerDraft, p: Performer) -> bool {
    &&& p.instruments@.len() == 0
    &&& match d.kind {
        PerformerKind::Ipn => p.id matches PerformerId::Ipn(v) && v@ == ipn_text(d.raw)->Ok_0,
        PerformerKind::Ipi => p.id matches PerformerId::Ipi(v) && v@ == ipi_text(d.raw)->Ok_0,
        PerformerKind::Isni => p.id matches PerformerId::Isni(v) && v@ == isni_text(d.raw)->Ok_0,
    }
}

/// Diagnostics of the performer inputs, in order.
pub open spec fn performers_errors(ds: Seq<PerformerDraft>) -> Seq<FieldErrorView>
    decreases ds.len(),
{
    if ds.len() == 0 {
        seq![]
    } else {
        performers_errors(ds.drop_last()) + parse_errors(
            "performers"@,
            index_prefix((ds.len() - 1) as nat),
            ds.last().raw,
            performer_outcome(ds.last()),
        )
    }
}

/// The performer inputs that parse, in order.
pub open spec fn valid_performers(ds: Seq<PerformerDraft>) -> Seq<PerformerDraft> {
    ds.filter(|d: PerformerDraft| performer_outcome(d) is Ok)
}

/// Diagnostics of the producer (ISNI) inputs, in order.
pub open spec fn producers_errors(ds: Seq<Seq<char>>) -> Seq<FieldErrorView>
    decreases ds.len(),
{
    if ds.len() == 0 {
        seq![]
    } else {
        producers_errors(ds.drop_last()) + parse_errors(
            "producers"@,
            index_prefix((ds.len() - 1) as nat),
            ds.last(),
            isni_text(ds.last()),
        )
    }
}

/// The producer inputs that parse, in order.
pub open spec fn valid_producers(ds: Seq<Seq<char>>) -> Seq<Seq<char>> {
    ds.filter(|raw: Seq<char>| isni_text(raw) is Ok)
}

/// Diagnostics of one production-place slot.
pub open spec fn place_errors(slot: Seq<char>, raw: Option<Seq<char>>) -> Seq<FieldErrorView> {
    match raw {
        Some(r) => text_errors("places"@, slot + " place"@, r, 128),
        None => seq![],
    }
}

/// Diagnostics of the production-places input.
pub open spec fn places_errors(p: Option<PlacesDraft>) -> Seq<FieldErrorView> {
    match p {
        Some(d) => place_errors("recording"@, d.recording) + place_errors("mixing"@, d.mixing)
            + place_errors("mastering"@, d.mastering),
        None => seq![],
    }
}

/// `v` is the place built from a valid slot input.
pub open spec fn place_built(raw: Option<Seq<char>>, v: Option<Place>) -> bool {
    match raw {
        Some(r) => v matches Some(p) && p@ == encode_utf8(trimmed_text(r)),
        None => v is None,
    }
}

/// The first mandatory input left unset, if any.
pub open spec fn recording_missing(d: RecordingDraft) -> Option<Seq<char>> {
    if d.isrc is None {
        Some("isrc"@)
    } else if d.title is None {
        Some("title"@)
    } else if d.artist is None {
        Some("artist"@)
    } else if d.work is None {
        Some("work"@)
    } else {
        None
    }
}

/// Every diagnostic `build` reports when no mandatory input is missing, in
/// order: ISRC, title, aliases, artist, work, performers, producers,
/// contributors, genres, places, off-chain extension.
pub open spec fn recording_errors(d: RecordingDraft) -> Seq<FieldErrorView> {
    parse_errors("isrc"@, seq![], d.isrc->0, isrc_text(d.isrc->0)) + text_errors(
        "title"@,
        "title"@,
        d.title->0,
        256,
    ) + alias_errors(d.title_aliases) + count_errors(
        "title_aliases"@,
        "aliases "@,
        valid_aliases(d.title_aliases).len(),
        8,
    ) + parse_errors("artist"@, seq![], d.artist->0.raw, party_outcome(d.artist->0))
        + work_errors(d.work->0) + performers_errors(d.performers) + count_errors(
        "performers"@,
        seq![],
        valid_performers(d.performers).len(),
        64,
    ) + producers_errors(d.producers) + count_errors(
        "producers"@,
        "producers "@,
        valid_producers(d.producers).len(),
        8,
    ) + party_list_errors("contributors"@, d.contributors) + count_errors(
        "contributors"@,
        seq![],
        valid_parties(d.contributors).len(),
        32,
    ) + count_errors("genres"@, "genres "@, d.genres.len(), 2) + places_errors(d.places)
        + offchain_errors(d.offchain_extension)
}

/// `v` is the payload built from `d`: the first listed genre is the primary
/// genre, the second the sub-genre.
pub open spec fn recording_built(d: RecordingDraft, v: RecordingV1) -> bool {
    let aliases = valid_aliases(d.title_aliases);
    let performers = valid_performers(d.performers);
    let producers = valid_producers(d.producers);
    let contributors = valid_parties(d.contributors);
    &&& v.isrc@ == isrc_text(d.isrc->0)->Ok_0
    &&& v.title@ == encode_utf8(trimmed_text(d.title->0))
    &&& v.title_aliases@.len() == aliases.len()
    &&& forall|k: int|
        0 <= k < aliases.len() ==> (#[trigger] v.title_aliases@[k])@ == encode_utf8(
            trimmed_text(aliases[k]),
        )
    &&& party_built(d.artist->0, v.artist)
    &&& v.featuring@.len() == 0
    &&& work_built(d.work->0, v.work)
    &&& v.genre == (if d.genres.len() >= 1 {
        Some(d.genres[0])
    } else {
        None
    })
    &&& v.sub_genre == (if d.genres.len() >= 2 {
        Some(d.genres[1])
    } else {
        None
    })
    &&& v.record_year == d.record_year
    &&& v.version_type == d.version_type
    &&& v.performers@.len() == performers.len()
    &&& forall|k: int|
        0 <= k < performers.len() ==> performer_built(performers[k], #[trigger] v.performers@[k])
    &&& v.producers@.len() == producers.len()
    &&& forall|k: int|
        0 <= k < producers.len() ==> (#[trigger] v.producers@[k])@ == isni_text(producers[k])->Ok_0
    &&& v.duration == d.duration
    &&& v.bpm == d.bpm
    &&& v.key == d.key
    &&& match d.places {
        Some(p) => v.places matches Some(pp) && place_built(p.recording, pp.recording)
            && place_built(p.mixing, pp.mixing) && place_built(p.mastering, pp.mastering),
        None => v.places is None,
    }
    &&& v.contributors@.len() == contributors.len()
    &&& forall|k: int|
        0 <= k < contributors.len() ==> party_built(contributors[k], #[trigger] v.contributors@[k])
    &&& match d.offchain_extension {
        Some(raw) => v.offchain_extension matches Some(h) && h@ == encode_utf8(raw),
        None => v.offchain_extension is None,
    }
}

/// What `build` returns on a builder modelled by `d`, `r` being its result.
pub open spec fn recording_build_result(d: RecordingDraft, r: Result<Recording, BuildError>) -> bool {
    match recording_missing(d) {
        Some(f) => r matches Err(BuildError::Missing(g)) && g@ == f,
        None => if recording_errors(d).len() > 0 {
            r matches Err(BuildError::Fields(es)) && errors_view(es@) == recording_errors(d)
        } else {
            r matches Ok(Recording::V1(v)) && recording_built(d, v)
        },
    }
}

/// Resolves the recorded-work input, recording a failed parse.
fn resolve_work(input: &WorkInput, errors: &mut Vec<FieldError>) -> (r: Option<WorkRef>)
    ensures
        appended(old(errors)@, final(errors)@, work_errors(input@)),
        r is Some <==> work_valid(input@),
        r matches Some(w) ==> work_built(input@, w),
{
    let ghost before = errors@;
    match input {
        WorkInput::Midds(id) => {
            assert(errors_view(errors@) =~= errors_view(before) + seq![]);
            Some(WorkRef::Midds(*id))
        },
        WorkInput::Iswc(raw) => match parse_iswc(raw.as_str()) {
            Ok(v) => {
                assert(errors_view(errors@) =~= errors_view(before) + seq![]);
                Some(WorkRef::Iswc(v))
            },
            Err(e) => {
                push_parse_error(errors, "work", &String::new(), raw.as_str(), e);
                None
            },
        },
    }
}

/// Parses performer input `i`, recording a failed parse.
fn parse_performer(input: &PerformerInput, i: usize, errors: &mut Vec<FieldError>) -> (r: Option<
    Performer,
>)
    ensures
        appended(
            old(errors)@,
            final(errors)@,
            parse_errors("performers"@, index_prefix(i as nat), input@.raw, performer_outcome(input@)),
        ),
        r is Some <==> performer_outcome(input@) is Ok,
        r matches Some(p) ==> performer_built(input@, p),
{
    let ghost before = errors@;
    let parsed: Result<PerformerId, ParseError> = match input.kind {
        PerformerKind::Ipn => match parse_ipn(input.raw.as_str()) {
            Ok(v) => Ok(PerformerId::Ipn(v)),
            Err(e) => Err(e),
        },
        PerformerKind::Ipi => match parse_ipi(input.raw.as_str()) {
            Ok(v) => Ok(PerformerId::Ipi(v)),
            Err(e) => Err(e),
        },
        PerformerKind::Isni => match parse_isni(input.raw.as_str()) {
            Ok(v) => Ok(PerformerId::Isni(v)),
            Err(e) => Err(e),
        },
    };
    match parsed {
        Ok(id) => {
            assert(errors_view(errors@) =~= errors_view(before) + seq![]);
            Some(Performer { id, instruments: Bounded::new() })
        },
        Err(e) => {
            let prefix = index_prefix_string(i);
            push_parse_error(errors, "performers", &prefix, input.raw.as_str(), e);
            None
        },
    }
}

/// Parses every performer input (at most 64 accepted).
fn build_performers(inputs: &Vec<PerformerInput>, errors: &mut Vec<FieldError>) -> (r: Option<
    Performers,
>)
    ensures
        appended(
            old(errors)@,
            final(errors)@,
            performers_errors(inputs@.map_values(|p: PerformerInput| p@)) + count_errors(
                "performers"@,
                seq![],
                valid_performers(inputs@.map_values(|p: PerformerInput| p@)).len(),
                64,
            ),
        ),
        r is Some <==> valid_performers(inputs@.map_values(|p: PerformerInput| p@)).len() <= 64,
        r matches Some(ps) ==> ({
            let valid = valid_performers(inputs@.map_values(|p: PerformerInput| p@));
            &&& ps@.len() == valid.len()
            &&& forall|k: int| 0 <= k < valid.len() ==> performer_built(valid[k], #[trigger] ps@[k])
        }),
{
    let ghost ds = inputs@.map_values(|p: PerformerInput| p@);
    let ghost e0 = errors@;
    let mut out: Vec<Performer> = Vec::new();
    let mut i: usize = 0;
    while i < inputs.len()
        invariant
            i <= inputs@.len(),
            ds == inputs@.map_values(|p: PerformerInput| p@),
            appended(e0, errors@, performers_errors(ds.subrange(0, i as int))),
            out@.len() == valid_performers(ds.subrange(0, i as int)).len(),
            forall|k: int|
                0 <= k < out@.len() ==> performer_built(
                    valid_performers(ds.subrange(0, i as int))[k],
                    #[trigger] out@[k],
                ),
        decreases inputs@.len() - i,
    {
        let one = parse_performer(&inputs[i], i, errors);
        proof {
            let pre = ds.subrange(0, i as int);
            let post = ds.subrange(0, i as int + 1);
            assert(post.drop_last() =~= pre);
            assert(post.last() == inputs@[i as int]@);
            reveal(Seq::filter);
            assert(errors_view(errors@) =~= errors_view(e0) + performers_errors(post));
        }
        match one {
            Some(p) => {
                out.push(p);
            },
            None => {},
        }
        i += 1;
    }
    assert(ds.subrange(0, inputs@.len() as int) =~= ds);
    let fits = check_count(errors, "performers", "", out.len(), 64);
    assert(""@ =~= Seq::<char>::empty()) by {
        reveal_strlit("");
    }
    assert(errors_view(errors@) =~= errors_view(e0) + (performers_errors(ds) + count_errors(
        "performers"@,
        seq![],
        valid_performers(ds).len(),
        64,
    )));
    if fits {
        match Bounded::try_new(out) {
            Ok(b) => Some(b),
            Err(_) => None,
        }
    } else {
        None
    }
}

/// Parses producer input `i` (an ISNI), recording a failed parse.
fn parse_producer(raw: &String, i: usize, errors: &mut Vec<FieldError>) -> (r: Option<Isni>)
    ensures
        appended(
            old(errors)@,
            final(errors)@,
            parse_errors("producers"@, index_prefix(i as nat), raw@, isni_text(raw@)),
        ),
        r is Some <==> isni_text(raw@) is Ok,
        r matches Some(v) ==> v@ == isni_text(raw@)->Ok_0,
{
    let ghost before = errors@;
    match parse_isni(raw.as_str()) {
        Ok(v) => {
            assert(errors_view(errors@) =~= errors_view(before) + seq![]);
            Some(v)
        },
        Err(e) => {
            let prefix = index_prefix_string(i);
            push_parse_error(errors, "producers", &prefix, raw.as_str(), e);
            None
        },
    }
}

/// Parses every producer input (at most 8 accepted).
fn build_producers(inputs: &Vec<String>, errors: &mut Vec<FieldError>) -> (r: Option<Producers>)
    ensures
        appended(
            old(errors)@,
            final(errors)@,
            producers_errors(inputs@.map_values(|s: String| s@)) + count_errors(
                "producers"@,
                "producers "@,
                valid_producers(inputs@.map_values(|s: String| s@)).len(),
                8,
            ),
        ),
        r is Some <==> valid_producers(inputs@.map_values(|s: String| s@)).len() <= 8,
        r matches Some(ps) ==> ({
            let valid = valid_producers(inputs@.map_values(|s: String| s@));
            &&& ps@.len() == valid.len()
            &&& forall|k: int|
                0 <= k < valid.len() ==> (#[trigger] ps@[k])@ == isni_text(valid[k])->Ok_0
        }),
{
    let ghost ds = inputs@.map_values(|s: String| s@);
    let ghost e0 = errors@;
    let mut out: Vec<Isni> = Vec::new();
    let mut i: usize = 0;
    while i < inputs.len()
        invariant
            i <= inputs@.len(),
            ds == inputs@.map_values(|s: String| s@),
            appended(e0, errors@, producers_errors(ds.subrange(0, i as int))),
            out@.len() == valid_producers(ds.subrange(0, i as int)).len(),
            forall|k: int|
                0 <= k < out@.len() ==> (#[trigger] out@[k])@ == isni_text(
                    valid_producers(ds.subrange(0, i as int))[k],
                )->Ok_0,
        decreases inputs@.len() - i,
    {
        let one = parse_producer(&inputs[i], i, errors);
        proof {
            let pre = ds.subrange(0, i as int);
            let post = ds.subrange(0, i as int + 1);
            assert(post.drop_last() =~= pre);
            assert(post.last() == inputs@[i as int]@);
            reveal(Seq::filter);
            assert(errors_view(errors@) =~= errors_view(e0) + producers_errors(post));
        }
        match one {
            Some(p) => {
                out.push(p);
            },
            None => {},
        }
        i += 1;
    }
    assert(ds.subrange(0, inputs@.len() as int) =~= ds);
    let fits = check_count(errors, "producers", "producers ", out.len(), 8);
    assert(errors_view(errors@) =~= errors_view(e0) + (producers_errors(ds) + count_errors(
        "producers"@,
        "producers "@,
        valid_producers(ds).len(),
        8,
    )));
    if fits {
        match Bounded::try_new(out) {
            Ok(b) => Some(b),
            Err(_) => None,
        }
    } else {
        None
    }
}

/// Bounds one production-place slot; `None` (with a diagnostic) when it is
/// present but empty or too long.
fn build_place(slot: &str, raw: &Option<String>, errors: &mut Vec<FieldError>) -> (r: Option<
    Option<Place>,
>)
    ensures
        appended(old(errors)@, final(errors)@, place_errors(slot@, opt_text(*raw))),
        r is Some <==> place_errors(slot@, opt_text(*raw)).len() == 0,
        r matches Some(v) ==> place_built(opt_text(*raw), v),
{
    match raw {
        Some(t) => {
            let mut subject = String::from_str(slot);
            subject.append(" place");
            match bounded_text::<128>(t.as_str(), "places", &subject, errors) {
                Some(p) => Some(Some(p)),
                None => None,
            }
        },
        None => {
            let ghost before = errors@;
            assert(errors_view(errors@) =~= errors_view(before) + seq![]);
            Some(None)
        },
    }
}

/// Bounds the production places; `Some(None)` when none were given.
fn build_places(raw: &Option<PlacesInput>, errors: &mut Vec<FieldError>) -> (r: Option<
    Option<ProductionPlaces>,
>)
    ensures
        appended(
            old(errors)@,
            final(errors)@,
            places_errors(
                match *raw {
                    Some(p) => Some(p@),
                    None => None,
                },
            ),
        ),
        r is Some <==> places_errors(
            match *raw {
                Some(p) => Some(p@),
                None => None,
            },
        ).len() == 0,
        r matches Some(v) ==> match *raw {
            Some(p) => v matches Some(pp) && place_built(p@.recording, pp.recording) && place_built(
                p@.mixing,
                pp.mixing,
            ) && place_built(p@.mastering, pp.mastering),
            None => v is None,
        },
{
    let ghost e0 = errors@;
    match raw {
        Some(p) => {
            let recording = build_place("recording", &p.recording, errors);
            let ghost e1 = errors@;
            let mixing = build_place("mixing", &p.mixing, errors);
            let ghost e2 = errors@;
            let mastering = build_place("mastering", &p.mastering, errors);
            assert(errors_view(errors@) =~= errors_view(e0) + places_errors(Some(p@)));
            match (recording, mixing, mastering) {
                (Some(recording), Some(mixing), Some(mastering)) => Some(
                    Some(ProductionPlaces { recording, mixing, mastering }),
                ),
                _ => None,
            }
        },
        None => {
            assert(errors_view(errors@) =~= errors_view(e0) + seq![]);
            Some(None)
        },
    }
}

impl RecordingBuilder {
    /// Empty builder. `isrc`, `title`, `artist` and `work` must be set
    /// before [`build`](Self::build).
    pub fn new() -> (r: Self)
        ensures
            r@ == (RecordingDraft {
                isrc: None,
                title: None,
                title_aliases: seq![],
                artist: None,
                work: None,
                genres: seq![],
                record_year: None,
                version_type: None,
                performers: seq![],
                producers: seq![],
                duration: None,
                bpm: None,
                key: None,
                places: None,
                contributors: seq![],
                offchain_extension: None,
            }),
    {
        let r = RecordingBuilder {
            isrc_raw: None,
            title_raw: None,
            title_aliases_raw: Vec::new(),
            artist: None,
            work: None,
            genres: Vec::new(),
            record_year: None,
            version_type: None,
            performers_raw: Vec::new(),
            producers_raw: Vec::new(),
            duration: None,
            bpm: None,
            key: None,
            places_raw: None,
            contributors_raw: Vec::new(),
            offchain_extension_raw: None,
        };
        assert(r@.title_aliases =~= seq![]);
        assert(r@.genres =~= seq![]);
        assert(r@.performers =~= seq![]);
        assert(r@.producers =~= seq![]);
        assert(r@.contributors =~= seq![]);
        r
    }

    /// Free-form ISRC input (anything `parse_isrc` accepts).
    pub fn isrc(self, s: &str) -> (r: Self)
        ensures
            r@ == (RecordingDraft { isrc: Some(s@), ..self@ }),
    {
        let mut b = self;
        b.isrc_raw = Some(String::from_str(s));
        b
    }

    /// Title; trimmed of surrounding white space at build time.
    pub fn title(self, s: &str) -> (r: Self)
        ensures
            r@ == (RecordingDraft { title: Some(s@), ..self@ }),
    {
        let mut b = self;
        b.title_raw = Some(String::from_str(s));
        b
    }

    /// Appends an alternative / localised title.
    pub fn add_title_alias(self, s: &str) -> (r: Self)
        ensures
            r@ == (RecordingDraft { title_aliases: self@.title_aliases.push(s@), ..self@ }),
    {
        let mut b = self;
        b.title_aliases_raw.push(String::from_str(s));
        assert(b@.title_aliases =~= self@.title_aliases.push(s@));
        b
    }

    /// Artist identified by an IPI (anything `parse_ipi` accepts).
    pub fn artist_ipi(self, ipi: &str) -> (r: Self)
        ensures
            r@ == (RecordingDraft { artist: Some(PartyDraft { raw: ipi@, kind: PartyKind::Ipi }), ..self@ }),
    {
        let mut b = self;
        b.artist = Some(PartyInput::new(ipi, PartyKind::Ipi));
        b
    }

    /// Artist identified by an ISNI (anything `parse_isni` accepts).
    pub fn artist_isni(self, isni: &str) -> (r: Self)
        ensures
            r@ == (RecordingDraft { artist: Some(PartyDraft { raw: isni@, kind: PartyKind::Isni }), ..self@ }),
    {
        let mut b = self;
        b.artist = Some(PartyInput::new(isni, PartyKind::Isni));
        b
    }

    /// References the recorded work by its on-chain MIDDS id.
    pub fn work_midds(self, id: u64) -> (r: Self)
        ensures
            r@ == (RecordingDraft { work: Some(WorkDraft::Midds(id)), ..self@ }),
    {
        let mut b = self;
        b.work = Some(WorkInput::Midds(id));
        b
    }

    /// References the recorded work by free-form ISWC text.
    pub fn work_iswc(self, iswc: &str) -> (r: Self)
        ensures
            r@ == (RecordingDraft { work: Some(WorkDraft::Iswc(iswc@)), ..self@ }),
    {
        let mut b = self;
        b.work = Some(WorkInput::Iswc(String::from_str(iswc)));
        b
    }

    /// Replaces the genre list: the first is the primary genre, the second
    /// the sub-genre; more than two is reported at build time.
    pub fn genres(self, genres: Vec<Genre>) -> (r: Self)
        ensures
            r@ == (RecordingDraft { genres: genres@, ..self@ }),
    {
        let mut b = self;
        b.genres = genres;
        b
    }

    /// Year of the recording.
    pub fn record_year(self, year: u16) -> (r: Self)
        ensures
            r@ == (RecordingDraft { record_year: Some(year), ..self@ }),
    {
        let mut b = self;
        b.record_year = Some(year);
        b
    }

    /// Editorial version of the recording.
    pub fn version_type(self, version: RecordingVersion) -> (r: Self)
        ensures
            r@ == (RecordingDraft { version_type: Some(version), ..self@ }),
    {
        let mut b = self;
        b.version_type = Some(version);
        b
    }

    /// Appends a performer identified by an IPN (International Performer Number).
    pub fn add_performer_ipn(self, ipn: &str) -> (r: Self)
        ensures
            r@ == (RecordingDraft { performers: self@.performers.push(PerformerDraft { raw: ipn@, kind: PerformerKind::Ipn }), ..self@ }),
    {
        let mut b = self;
        b.performers_raw.push(PerformerInput { raw: String::from_str(ipn), kind: PerformerKind::Ipn });
        assert(b@.performers =~= self@.performers.push(PerformerDraft { raw: ipn@, kind: PerformerKind::Ipn }));
        b
    }

    /// Appends a performer identified by an IPI.
    pub fn add_performer_ipi(self, ipi: &str) -> (r: Self)
        ensures
            r@ == (RecordingDraft { performers: self@.performers.push(PerformerDraft { raw: ipi@, kind: PerformerKind::Ipi }), ..self@ }),
    {
        let mut b = self;
        b.performers_raw.push(PerformerInput { raw: String::from_str(ipi), kind: PerformerKind::Ipi });
        assert(b@.performers =~= self@.performers.push(PerformerDraft { raw: ipi@, kind: PerformerKind::Ipi }));
        b
    }

    /// Appends a performer identified by an ISNI.
    pub fn add_performer_isni(self, isni: &str) -> (r: Self)
        ensures
            r@ == (RecordingDraft { performers: self@.performers.push(PerformerDraft { raw: isni@, kind: PerformerKind::Isni }), ..self@ }),
    {
        let mut b = self;
        b.performers_raw.push(PerformerInput { raw: String::from_str(isni), kind: PerformerKind::Isni });
        assert(b@.performers =~= self@.performers.push(PerformerDraft { raw: isni@, kind: PerformerKind::Isni }));
        b
    }

    /// Appends a producer, identified by an ISNI.
    pub fn add_producer(self, isni: &str) -> (r: Self)
        ensures
            r@ == (RecordingDraft { producers: self@.producers.push(isni@), ..self@ }),
    {
        let mut b = self;
        b.producers_raw.push(String::from_str(isni));
        assert(b@.producers =~= self@.producers.push(isni@));
        b
    }

    /// Length in whole seconds.
    pub fn duration(self, seconds: u32) -> (r: Self)
        ensures
            r@ == (RecordingDraft { duration: Some(seconds), ..self@ }),
    {
        let mut b = self;
        b.duration = Some(seconds);
        b
    }

    /// Tempo in beats per minute.
    pub fn bpm(self, bpm: u16) -> (r: Self)
        ensures
            r@ == (RecordingDraft { bpm: Some(bpm), ..self@ }),
    {
        let mut b = self;
        b.bpm = Some(bpm);
        b
    }

    /// Diatonic key.
    pub fn key(self, key: MusicalKey) -> (r: Self)
        ensures
            r@ == (RecordingDraft { key: Some(key), ..self@ }),
    {
        let mut b = self;
        b.key = Some(key);
        b
    }

    /// Attaches production places. A present place that is empty after
    /// trimming is reported at build time.
    pub fn places(self, recording: Option<&str>, mixing: Option<&str>, mastering: Option<&str>) -> (r:
        Self)
        ensures
            r@ == (RecordingDraft {
                places: Some(
                    PlacesDraft {
                        recording: match recording {
                            Some(t) => Some(t@),
                            None => None,
                        },
                        mixing: match mixing {
                            Some(t) => Some(t@),
                            None => None,
                        },
                        mastering: match mastering {
                            Some(t) => Some(t@),
                            None => None,
                        },
                    },
                ),
                ..self@
            }),
    {
        let mut b = self;
        let recording = match recording {
            Some(t) => Some(String::from_str(t)),
            None => None,
        };
        let mixing = match mixing {
            Some(t) => Some(String::from_str(t)),
            None => None,
        };
        let mastering = match mastering {
            Some(t) => Some(String::from_str(t)),
            None => None,
        };
        b.places_raw = Some(PlacesInput { recording, mixing, mastering });
        b
    }

    /// Appends a contributor identified by an IPI.
    pub fn add_contributor_ipi(self, ipi: &str) -> (r: Self)
        ensures
            r@ == (RecordingDraft { contributors: self@.contributors.push(PartyDraft { raw: ipi@, kind: PartyKind::Ipi }), ..self@ }),
    {
        let mut b = self;
        b.contributors_raw.push(PartyInput::new(ipi, PartyKind::Ipi));
        assert(b@.contributors =~= self@.contributors.push(PartyDraft { raw: ipi@, kind: PartyKind::Ipi }));
        b
    }

    /// Appends a contributor identified by an ISNI.
    pub fn add_contributor_isni(self, isni: &str) -> (r: Self)
        ensures
            r@ == (RecordingDraft { contributors: self@.contributors.push(PartyDraft { raw: isni@, kind: PartyKind::Isni }), ..self@ }),
    {
        let mut b = self;
        b.contributors_raw.push(PartyInput::new(isni, PartyKind::Isni));
        assert(b@.contributors =~= self@.contributors.push(PartyDraft { raw: isni@, kind: PartyKind::Isni }));
        b
    }

    /// Off-chain extension hash, bound-checked at build time.
    pub fn offchain_extension(self, bytes: &str) -> (r: Self)
        ensures
            r@ == (RecordingDraft { offchain_extension: Some(bytes@), ..self@ }),
    {
        let mut b = self;
        b.offchain_extension_raw = Some(String::from_str(bytes));
        b
    }

    /// Validates and finalises into a `Recording::V1`.
    ///
    /// Returns `BuildError::Missing` naming the first unset mandatory input
    /// (`isrc`, `title`, `artist`, `work`), otherwise `BuildError::Fields`
    /// with one diagnostic per failing input, otherwise the payload.
    #[verifier::rlimit(60)]
    pub fn build(self) -> (r: Result<Recording, BuildError>)
        ensures
            recording_build_result(self@, r),
    {
        let ghost d = self@;
        let RecordingBuilder {
            isrc_raw,
            title_raw,
            title_aliases_raw,
            artist,
            work,
            genres,
            record_year,
            version_type,
            performers_raw,
            producers_raw,
            duration,
            bpm,
            key,
            places_raw,
            contributors_raw,
            offchain_extension_raw,
        } = self;
        let isrc_raw = match isrc_raw {
            Some(s) => s,
            None => return Err(BuildError::Missing("isrc")),
        };
        let title_raw = match title_raw {
            Some(s) => s,
            None => return Err(BuildError::Missing("title")),
        };
        let artist_in = match artist {
            Some(a) => a,
            None => return Err(BuildError::Missing("artist")),
        };
        let work_in = match work {
            Some(w) => w,
            None => return Err(BuildError::Missing("work")),
        };
        let mut errors: Vec<FieldError> = Vec::new();
        let ghost e0 = errors@;
        let isrc = match parse_isrc(isrc_raw.as_str()) {
            Ok(v) => {
                assert(errors_view(errors@) =~= errors_view(e0) + seq![]);
                Some(v)
            },
            Err(e) => {
                push_parse_error(&mut errors, "isrc", &String::new(), isrc_raw.as_str(), e);
                None
            },
        };
        let ghost e1 = errors@;
        let title = bounded_text::<256>(
            title_raw.as_str(),
            "title",
            &String::from_str("title"),
            &mut errors,
        );
        let ghost e2 = errors@;
        let title_aliases = build_title_aliases(&title_aliases_raw, &mut errors);
        let ghost e3 = errors@;
        let artist = parse_party(&artist_in, "artist", &String::new(), &mut errors);
        let ghost e4 = errors@;
        let work = resolve_work(&work_in, &mut errors);
        let ghost e5 = errors@;
        let performers = build_performers(&performers_raw, &mut errors);
        let ghost e6 = errors@;
        let producers = build_producers(&producers_raw, &mut errors);
        let ghost e7 = errors@;
        let contributors = parse_party_list::<32>(&contributors_raw, "contributors", &mut errors);
        let ghost e8 = errors@;
        let genres_fit = check_count(&mut errors, "genres", "genres ", genres.len(), 2);
        let ghost e9 = errors@;
        let places = build_places(&places_raw, &mut errors);
        let ghost e10 = errors@;
        let offchain = offchain_hash(&offchain_extension_raw, &mut errors);
        proof {
            assert(d.isrc->0 == isrc_raw@);
            assert(d.title->0 == title_raw@);
            assert(d.artist->0 == artist_in@);
            assert(d.work->0 == work_in@);
            assert(errors_view(e0) =~= seq![]);
            assert(errors_view(e1) =~= parse_errors("isrc"@, seq![], isrc_raw@, isrc_text(isrc_raw@)));
            assert(errors_view(errors@) == recording_errors(d));
        }
        if errors.len() > 0 {
            return Err(BuildError::Fields(errors));
        }
        let genre = if genres.len() >= 1 {
            Some(genres[0])
        } else {
            None
        };
        let sub_genre = if genres.len() >= 2 {
            Some(genres[1])
        } else {
            None
        };
        match (isrc, title, title_aliases, artist, work, performers, producers, contributors) {
            (
                Some(isrc),
                Some(title),
                Some(title_aliases),
                Some(artist),
                Some(work),
                Some(performers),
                Some(producers),
                Some(contributors),
            ) => match (places, offchain) {
                (Some(places), Some(offchain_extension)) => Ok(
                    Recording::V1(
                        RecordingV1 {
                            isrc,
                            title,
                            title_aliases,
                            artist,
                            featuring: Bounded::new(),
                            work,
                            genre,
                            sub_genre,
                            record_year,
                            version_type,
                            performers,
                            producers,
                            duration,
                            bpm,
                            key,
                            places,
                            contributors,
                            offchain_extension,
                        },
                    ),
                ),
                _ => Err(BuildError::Fields(errors)),
            },
            _ => Err(BuildError::Fields(errors)),
        }
    }
}

/// Production places keep their slots: when `places(recording, mixing,
/// mastering)` was set and the build succeeds, the built recording, mixing
/// and mastering places are the trimmed texts given in that same slot, and
/// a slot given no text stays empty.
pub proof fn lemma_built_places_keep_slots(
    d: RecordingDraft,
    recording: Option<Seq<char>>,
    mixing: Option<Seq<char>>,
    mastering: Option<Seq<char>>,
    r: Result<Recording, BuildError>,
)
    requires
        recording_build_result(
            RecordingDraft { places: Some(PlacesDraft { recording, mixing, mastering }), ..d },
            r,
        ),
        r is Ok,
    ensures
        r matches Ok(Recording::V1(v)) && v.places matches Some(pp) && {
            &&& match recording {
                Some(t) => pp.recording matches Some(x) && x@ == encode_utf8(trimmed_text(t)),
                None => pp.recording is None,
            }
            &&& match mixing {
                Some(t) => pp.mixing matches Some(x) && x@ == encode_utf8(trimmed_text(t)),
                None => pp.mixing is None,
            }
            &&& match mastering {
                Some(t) => pp.mastering matches Some(x) && x@ == encode_utf8(trimmed_text(t)),
                None => pp.mastering is None,
            }
        },
{
}

/// The recording's settings are kept as given: when the build succeeds, the
/// built year, version, duration, bpm and key are the ones set, the first
/// listed genre is the genre and the second the sub-genre (none when not
/// listed).
pub proof fn lemma_built_recording_settings(d: RecordingDraft, r: Result<Recording, BuildError>)
    requires
        recording_build_result(d, r),
        r is Ok,
    ensures
        r matches Ok(Recording::V1(v)) && {
            &&& v.record_year == d.record_year && v.version_type == d.version_type
            &&& v.duration == d.duration && v.bpm == d.bpm && v.key == d.key
            &&& (d.genres.len() == 0 ==> v.genre is None && v.sub_genre is None)
            &&& (d.genres.len() >= 1 ==> v.genre == Some(d.genres[0]))
            &&& (d.genres.len() == 1 ==> v.sub_genre is None)
            &&& (d.genres.len() >= 2 ==> v.sub_genre == Some(d.genres[1]))
        },
{
}

} // verus!
