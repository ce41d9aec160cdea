//! Parser-tolerant builder for `Release::V1`.
use vstd::prelude::*;
use vstd::string::StringExecFns;
use vstd::utf8::encode_utf8;

use crate::bounded::Bounded;
use crate::builder::{
    alias_errors, appended, bounded_text, build_title_aliases, check_count, count_errors,
    errors_view, index_prefix, index_prefix_string, isni_text, isrc_text, offchain_errors,
    offchain_hash, opt_text, parse_errors, parse_party, party_built, party_outcome,
    push_parse_error, text_errors, trimmed_text, upc_text, valid_aliases, FieldErrorView,
    PartyDraft, PartyInput, PartyKind,
};
use crate::country::Country;
use crate::error::{BuildError, FieldError, ParseError};
use crate::identifier::Isni;
use crate::parse::{parse_isni, parse_isrc, parse_upc};
use crate::release::{
    CatalogNumber, CoverContributorName, CoverContributors, Producer, Producers, Release,
    ReleaseDate, ReleaseFormat, ReleasePackaging, ReleaseStatus, ReleaseType, ReleaseV1, Track,
    Tracks,
};
use crate::shared::RecordingRef;
use crate::text::{decimal_chars, decimal_string};

verus! {

/// Model of a track input.
pub enum TrackDraft {
    /// By on-chain MIDDS id (no parsing).
    Midds(u64),
    /// By free-form ISRC text.
    Isrc(Seq<char>),
}

/// Model of a producer input: ISNI text and catalog-number text.
pub struct ProducerDraft {
    pub isni: Seq<char>,
    pub catalog: Seq<char>,
}

/// Model of a [`ReleaseBuilder`]: the inputs it holds, as typed.
pub struct ReleaseDraft {
    pub upc: Option<Seq<char>>,
    pub title: Option<Seq<char>>,
    pub title_aliases: Seq<Seq<char>>,
    pub artist: Option<PartyDraft>,
    pub tracks: Seq<TrackDraft>,
    pub producers: Seq<ProducerDraft>,
    pub status: Option<ReleaseStatus>,
    pub release_date: Option<ReleaseDate>,
    pub country: Option<Country>,
    pub distributor_name: Option<Seq<char>>,
    pub release_type: Option<ReleaseType>,
    pub format: Option<ReleaseFormat>,
    pub packaging: Option<ReleasePackaging>,
    pub cover_contributors: Seq<Seq<char>>,
    pub offchain_extension: Option<Seq<char>>,
}

/// How a track was referenced by the user.
#[derive(Debug, Clone)]
enum TrackInput {
    Midds(u64),
    Isrc(String),
}

impl View for TrackInput {
    type V = TrackDraft;

    closed spec fn view(&self) -> TrackDraft {
        match self {
            TrackInput::Midds(id) => TrackDraft::Midds(*id),
            TrackInput::Isrc(s) => TrackDraft::Isrc(s@),
        }
    }
}

/// A producer entry the user typed.
#[derive(Debug, Clone)]
struct ProducerInput {
    isni_raw: String,
    catalog_raw: String,
}

impl View for ProducerInput {
    type V = ProducerDraft;

    closed spec fn view(&self) -> ProducerDraft {
        ProducerDraft { isni: self.isni_raw@, catalog: self.catalog_raw@ }
    }
}

/// Parser-tolerant builder for `Release::V1`.
///
/// Free-form inputs are stored verbatim and parsed / validated only by
/// [`build`](Self::build), where every failing field surfaces as a
/// [`FieldError`] inside `BuildError::Fields`. Mandatory inputs: `upc`,
/// `title`, `artist`, `status`, `release_date`, `country`,
/// `distributor_name`, `release_type`, `format`, `packaging` and at least
/// one track.
#[derive(Debug, Clone)]
pub struct ReleaseBuilder {
    upc_raw: Option<String>,
    title_raw: Option<String>,
    title_aliases_raw: Vec<String>,
    artist: Option<PartyInput>,
    tracks: Vec<TrackInput>,
    producers_raw: Vec<ProducerInput>,
    status: Option<ReleaseStatus>,
    release_date: Option<ReleaseDate>,
    country: Option<Country>,
    distributor_raw: Option<String>,
    release_type: Option<ReleaseType>,
    format: Option<ReleaseFormat>,
    packaging: Option<ReleasePackaging>,
    cover_contributors_raw: Vec<String>,
    offchain_extension_raw: Option<String>,
}

impl View for ReleaseBuilder {
    type V = ReleaseDraft;

    closed spec fn view(&self) -> ReleaseDraft {
        ReleaseDraft {
            upc: opt_text(self.upc_raw),
            title: opt_text(self.title_raw),
            title_aliases: self.title_aliases_raw@.map_values(|s: String| s@),
            artist: match self.artist {
                Some(a) => Some(a@),
                None => None,
            },
            tracks: self.tracks@.map_values(|t: TrackInput| t@),
            producers: self.producers_raw@.map_values(|p: ProducerInput| p@),
            status: self.status,
            release_date: self.release_date,
            country: self.country,
            distributor_name: opt_text(self.distributor_raw),
            release_type: self.release_type,
            format: self.format,
            packaging: self.packaging,
            cover_contributors: self.cover_contributors_raw@.map_values(|s: String| s@),
            offchain_extension: opt_text(self.offchain_extension_raw),
        }
    }
}

/// Diagnostics of track input `i`.
pub open spec fn track_errors(d: TrackDraft, i: nat) -> Seq<FieldErrorView> {
    match d {
        TrackDraft::Midds(_) => seq![],
        TrackDraft::Isrc(raw) => parse_errors("tracks"@, index_prefix(i), raw, isrc_text(raw)),
    }
}

/// A track input resolves: a MIDDS id, or ISRC text that parses.
pub open spec fn track_valid(d: TrackDraft) -> bool {
    match d {
        TrackDraft::Midds(_) => true,
        TrackDraft::Isrc(raw) => isrc_text(raw) is Ok,
    }
}

/// `r` is the recording reference resolved from `d`.
pub open spec fn track_built(d: TrackDraft, r: RecordingRef) -> bool {
    match d {
        TrackDraft::Midds(id) => r == RecordingRef::Midds(id),
        TrackDraft::Isrc(raw) => r matches RecordingRef::Isrc(v) && v@ == isrc_text(raw)->Ok_0,
    }
}

/// Diagnostics of every track input, in order.
pub open spec fn tracks_errors(ds: Seq<TrackDraft>) -> Seq<FieldErrorView>
    decreases ds.len(),
{
    if ds.len() == 0 {
        seq![]
    } else {
        tracks_errors(ds.drop_last()) + track_errors(ds.last(), (ds.len() - 1) as nat)
    }
}

/// The track inputs that resolve, in order.
pub open spec fn valid_tracks(ds: Seq<TrackDraft>) -> Seq<TrackDraft> {
    ds.filter(|d: TrackDraft| track_valid(d))
}

/// Diagnostics of producer input `i`: its ISNI, then its catalog number.
pub open spec fn producer_errors(d: ProducerDraft, i: nat) -> Seq<FieldErrorView> {
    parse_errors("producers"@, index_prefix(i) + "isni "@, d.isni, isni_text(d.isni))
        + text_errors("producers"@, "#"@ + decimal_chars(i) + " catalog number"@, d.catalog, 32)
}

/// A producer input yields a producer.
pub open spec fn producer_valid(d: ProducerDraft) -> bool {
    isni_text(d.isni) is Ok && trimmed_text(d.catalog).len() > 0 && encode_utf8(
        trimmed_text(d.catalog),
    ).len() <= 32
}

/// `p` is the producer built from `d`.
pub open spec fn producer_built(d: ProducerDraft, p: Producer) -> bool {
    p.isni@ == isni_text(d.isni)->Ok_0 && p.catalog_number@ == encode_utf8(trimmed_text(d.catalog))
}

/// Diagnostics of every producer input, in order.
pub open spec fn producers_errors(ds: Seq<ProducerDraft>) -> Seq<FieldErrorView>
    decreases ds.len(),
{
    if ds.len() == 0 {
        seq![]
    } else {
        producers_errors(ds.drop_last()) + producer_errors(ds.last(), (ds.len() - 1) as nat)
    }
}

/// The producer inputs that yield a producer, in order.
pub open spec fn valid_producers(ds: Seq<ProducerDraft>) -> Seq<ProducerDraft> {
    ds.filter(|d: ProducerDraft| producer_valid(d))
}

/// Diagnostics of every cover-contributor input, in order.
pub open spec fn covers_errors(ds: Seq<Seq<char>>) -> Seq<FieldErrorView>
    decreases ds.len(),
{
    if ds.len() == 0 {
        seq![]
    } else {
        covers_errors(ds.drop_last()) + text_errors(
            "cover_contributors"@,
            "#"@ + decimal_chars((ds.len() - 1) as nat),
            ds.last(),
            128,
        )
    }
}

/// A cover-contributor input is non-empty after trimming and fits.
pub open spec fn cover_valid(raw: Seq<char>) -> bool {
    trimmed_text(raw).len() > 0 && encode_utf8(trimmed_text(raw)).len() <= 128
}

/// The cover-contributor inputs that yield a name, in order.
pub open spec fn valid_covers(ds: Seq<Seq<char>>) -> Seq<Seq<char>> {
    ds.filter(|raw: Seq<char>| cover_valid(raw))
}

/// The first mandatory input left unset, if any.
pub open spec fn release_missing(d: ReleaseDraft) -> Option<Seq<char>> {
    if d.upc is None {
        Some("upc"@)
    } else if d.title is None {
        Some("title"@)
    } else if d.artist is None {
        Some("artist"@)
    } else if d.status is None {
        Some("status"@)
    } else if d.release_date is None {
        Some("release_date"@)
    } else if d.country is None {
        Some("country"@)
    } else if d.distributor_name is None {
        Some("distributor_name"@)
    } else if d.release_type is None {
        Some("release_type"@)
    } else if d.format is None {
        Some("format"@)
    } else if d.packaging is None {
        Some("packaging"@)
    } else if d.tracks.len() == 0 {
        Some("tracks"@)
    } else {
        None
    }
}

/// Every diagnostic `build` reports when no mandatory input is missing, in
/// order: UPC, title, aliases, artist, tracks, producers, distributor name,
/// cover contributors, off-chain extension.
pub open spec fn release_errors(d: ReleaseDraft) -> Seq<FieldErrorView> {
    parse_errors("upc"@, seq![], d.upc->0, upc_text(d.upc->0)) + text_errors(
        "title"@,
        "title"@,
        d.title->0,
        256,
    ) + alias_errors(d.title_aliases) + count_errors(
        "title_aliases"@,
        "aliases "@,
        valid_aliases(d.title_aliases).len(),
        8,
    ) + parse_errors("artist"@, seq![], d.artist->0.raw, party_outcome(d.artist->0))
        + tracks_errors(d.tracks) + count_errors(
        "tracks"@,
        "tracks "@,
        valid_tracks(d.tracks).len(),
        256,
    ) + producers_errors(d.producers) + count_errors(
        "producers"@,
        "producers "@,
        valid_producers(d.producers).len(),
        16,
    ) + text_errors("distributor_name"@, "distributor name"@, d.distributor_name->0, 128)
        + covers_errors(d.cover_contributors) + count_errors(
        "cover_contributors"@,
        "cover contributors "@,
        valid_covers(d.cover_contributors).len(),
        16,
    ) + offchain_errors(d.offchain_extension)
}

/// `v` is the payload built from `d`: accepted tracks are numbered `1, 2,
/// …` in input order, and no featured artist is listed.
pub open spec fn release_built(d: ReleaseDraft, v: ReleaseV1) -> bool {
    let aliases = valid_aliases(d.title_aliases);
    let tracks = valid_tracks(d.tracks);
    let producers = valid_producers(d.producers);
    let covers = valid_covers(d.cover_contributors);
    &&& v.upc@ == upc_text(d.upc->0)->Ok_0
    &&& v.title@ == encode_utf8(trimmed_text(d.title->0))
    &&& v.title_aliases@.len() == aliases.len()
    &&& forall|k: int|
        0 <= k < aliases.len() ==> (#[trigger] v.title_aliases@[k])@ == encode_utf8(
            trimmed_text(aliases[k]),
        )
    &&& party_built(d.artist->0, v.artist)
    &&& v.featuring@.len() == 0
    &&& v.tracks@.len() == tracks.len()
    &&& forall|k: int|
        0 <= k < tracks.len() ==> (#[trigger] v.tracks@[k]).number == k + 1 && track_built(
            tracks[k],
            v.tracks@[k].recording,
        )
    &&& v.producers@.len() == producers.len()
    &&& forall|k: int|
        0 <= k < producers.len() ==> producer_built(producers[k], #[trigger] v.producers@[k])
    &&& v.status == d.status->0
    &&& v.release_date == d.release_date->0
    &&& v.country == d.country->0
    &&& v.distributor_name@ == encode_utf8(trimmed_text(d.distributor_name->0))
    &&& v.release_type == d.release_type->0
    &&& v.format == d.format->0
    &&& v.packaging == d.packaging->0
    &&& v.cover_contributors@.len() == covers.len()
    &&& forall|k: int|
        0 <= k < covers.len() ==> (#[trigger] v.cover_contributors@[k])@ == encode_utf8(
            trimmed_text(covers[k]),
        )
    &&& match d.offchain_extension {
        Some(raw) => v.offchain_extension matches Some(h) && h@ == encode_utf8(raw),
        None => v.offchain_extension is None,
    }
}

/// What `build` returns on a builder modelled by `d`, `r` being its result.
pub open spec fn release_build_result(d: ReleaseDraft, r: Result<Release, BuildError>) -> bool {
    match release_missing(d) {
        Some(f) => r matches Err(BuildError::Missing(g)) && g@ == f,
        None => if release_errors(d).len() > 0 {
            r matches Err(BuildError::Fields(es)) && errors_view(es@) == release_errors(d)
        } else {
            r matches Ok(Release::V1(v)) && release_built(d, v)
        },
    }
}

/// Resolves track input `i`, recording a failed parse.
fn resolve_track(input: &TrackInput, i: usize, errors: &mut Vec<FieldError>) -> (r: Option<
    RecordingRef,
>)
    ensures
        appended(old(errors)@, final(errors)@, track_errors(input@, i as nat)),
        r is Some <==> track_valid(input@),
        r matches Some(t) ==> track_built(input@, t),
{
    let ghost before = errors@;
    match input {
        TrackInput::Midds(id) => {
            assert(errors_view(errors@) =~= errors_view(before) + seq![]);
            Some(RecordingRef::Midds(*id))
        },
        TrackInput::Isrc(raw) => match parse_isrc(raw.as_str()) {
            Ok(v) => {
                assert(errors_view(errors@) =~= errors_view(before) + seq![]);
                Some(RecordingRef::Isrc(v))
            },
            Err(e) => {
                let prefix = index_prefix_string(i);
                push_parse_error(errors, "tracks", &prefix, raw.as_str(), e);
                None
            },
        },
    }
}

/// Resolves every track input and numbers the accepted ones `1, 2, …`; at
/// most 256 are accepted.
fn build_tracks(inputs: &Vec<TrackInput>, errors: &mut Vec<FieldError>) -> (r: Option<Tracks>)
    ensures
        appended(
            old(errors)@,
            final(errors)@,
            tracks_errors(inputs@.map_values(|t: TrackInput| t@)) + count_errors(
                "tracks"@,
                "tracks "@,
                valid_tracks(inputs@.map_values(|t: TrackInput| t@)).len(),
                256,
            ),
        ),
        r is Some <==> valid_tracks(inputs@.map_values(|t: TrackInput| t@)).len() <= 256,
        r matches Some(ts) ==> ({
            let valid = valid_tracks(inputs@.map_values(|t: TrackInput| t@));
            &&& ts@.len() == valid.len()
            &&& forall|k: int|
                0 <= k < valid.len() ==> (#[trigger] ts@[k]).number == k + 1 && track_built(
                    valid[k],
                    ts@[k].recording,
                )
        }),
{
    let ghost ds = inputs@.map_values(|t: TrackInput| t@);
    let ghost e0 = errors@;
    let mut out: Vec<Track> = Vec::new();
    let mut i: usize = 0;
    while i < inputs.len()
        invariant
            i <= inputs@.len(),
            ds == inputs@.map_values(|t: TrackInput| t@),
            appended(e0, errors@, tracks_errors(ds.subrange(0, i as int))),
            out@.len() == valid_tracks(ds.subrange(0, i as int)).len(),
            forall|k: int|
                0 <= k < out@.len() ==> (k < 65535 ==> (#[trigger] out@[k]).number == k + 1)
                    && track_built(valid_tracks(ds.subrange(0, i as int))[k], out@[k].recording),
        decreases inputs@.len() - i,
    {
        let one = resolve_track(&inputs[i], i, errors);
        proof {
            let pre = ds.subrange(0, i as int);
            let post = ds.subrange(0, i as int + 1);
            assert(post.drop_last() =~= pre);
            assert(post.last() == inputs@[i as int]@);
            reveal(Seq::filter);
            assert(errors_view(errors@) =~= errors_view(e0) + tracks_errors(post));
        }
        match one {
            Some(recording) => {
                let number: u16 = if out.len() < 65535 {
                    (out.len() + 1) as u16
                } else {
                    u16::MAX
                };
                out.push(Track { number, recording });
            },
            None => {},
        }
        i += 1;
    }
    assert(ds.subrange(0, inputs@.len() as int) =~= ds);
    let fits = check_count(errors, "tracks", "tracks ", out.len(), 256);
    assert(errors_view(errors@) =~= errors_view(e0) + (tracks_errors(ds) + count_errors(
        "tracks"@,
        "tracks "@,
        valid_tracks(ds).len(),
        256,
    )));
    if fits {
        match Bounded::try_new(out) {
            Ok(b) => Some(b),
            Err(_) => None,
        }
    } else {
        None
    }
}

/// Builds producer `i`: parses its ISNI, bounds its catalog number.
fn build_producer(input: &ProducerInput, i: usize, errors: &mut Vec<FieldError>) -> (r: Option<
    Producer,
>)
    ensures
        appended(old(errors)@, final(errors)@, producer_errors(input@, i as nat)),
        r is Some <==> producer_valid(input@),
        r matches Some(p) ==> producer_built(input@, p),
{
    let ghost e0 = errors@;
    let isni = match parse_isni(input.isni_raw.as_str()) {
        Ok(v) => {
            assert(errors_view(errors@) =~= errors_view(e0) + seq![]);
            Some(v)
        },
        Err(e) => {
            let mut prefix = index_prefix_string(i);
            prefix.append("isni ");
            push_parse_error(errors, "producers", &prefix, input.isni_raw.as_str(), e);
            None
        },
    };
    let ghost e1 = errors@;
    let mut subject = String::from_str("#");
    let num = decimal_string(i as u64);
    subject.append(num.as_str());
    subject.append(" catalog number");
    let catalog = bounded_text::<32>(input.catalog_raw.as_str(), "producers", &subject, errors);
    assert(errors_view(errors@) =~= errors_view(e0) + producer_errors(input@, i as nat));
    match (isni, catalog) {
        (Some(isni), Some(catalog_number)) => Some(Producer { isni, catalog_number }),
        _ => None,
    }
}

/// Builds every producer input (at most 16 accepted).
fn build_producers(inputs: &Vec<ProducerInput>, errors: &mut Vec<FieldError>) -> (r: Option<
    Producers,
>)
    ensures
        appended(
            old(errors)@,
            final(errors)@,
            producers_errors(inputs@.map_values(|p: ProducerInput| p@)) + count_errors(
                "producers"@,
                "producers "@,
                valid_producers(inputs@.map_values(|p: ProducerInput| p@)).len(),
                16,
            ),
        ),
        r is Some <==> valid_producers(inputs@.map_values(|p: ProducerInput| p@)).len() <= 16,
        r matches Some(ps) ==> ({
            let valid = valid_producers(inputs@.map_values(|p: ProducerInput| p@));
            &&& ps@.len() == valid.len()
            &&& forall|k: int| 0 <= k < valid.len() ==> producer_built(valid[k], #[trigger] ps@[k])
        }),
{
    let ghost ds = inputs@.map_values(|p: ProducerInput| p@);
    let ghost e0 = errors@;
    let mut out: Vec<Producer> = Vec::new();
    let mut i: usize = 0;
    while i < inputs.len()
        invariant
            i <= inputs@.len(),
            ds == inputs@.map_values(|p: ProducerInput| p@),
            appended(e0, errors@, producers_errors(ds.subrange(0, i as int))),
            out@.len() == valid_producers(ds.subrange(0, i as int)).len(),
            forall|k: int|
                0 <= k < out@.len() ==> producer_built(
                    valid_producers(ds.subrange(0, i as int))[k],
                    #[trigger] out@[k],
                ),
        decreases inputs@.len() - i,
    {
        let one = build_producer(&inputs[i], i, errors);
        proof {
            let pre = ds.subrange(0, i as int);
            let post = ds.subrange(0, i as int + 1);
            assert(post.drop_last() =~= pre);
            assert(post.last() == inputs@[i as int]@);
            reveal(Seq::filter);
            assert(errors_view(errors@) =~= errors_view(e0) + producers_errors(post));
        }
        match one {
            Some(p) => {
                out.push(p);
            },
            None => {},
        }
        i += 1;
    }
    assert(ds.subrange(0, inputs@.len() as int) =~= ds);
    let fits = check_count(errors, "producers", "producers ", out.len(), 16);
    assert(errors_view(errors@) =~= errors_view(e0) + (producers_errors(ds) + count_errors(
        "producers"@,
        "producers "@,
        valid_producers(ds).len(),
        16,
    )));
    if fits {
        match Bounded::try_new(out) {
            Ok(b) => Some(b),
            Err(_) => None,
        }
    } else {
        None
    }
}

/// Bounds every cover-contributor name (at most 16 accepted).
fn build_cover_contributors(inputs: &Vec<String>, errors: &mut Vec<FieldError>) -> (r: Option<
    CoverContributors,
>)
    ensures
        appended(
            old(errors)@,
            final(errors)@,
            covers_errors(inputs@.map_values(|s: String| s@)) + count_errors(
                "cover_contributors"@,
                "cover contributors "@,
                valid_covers(inputs@.map_values(|s: String| s@)).len(),
                16,
            ),
        ),
        r is Some <==> valid_covers(inputs@.map_values(|s: String| s@)).len() <= 16,
        r matches Some(ns) ==> ({
            let valid = valid_covers(inputs@.map_values(|s: String| s@));
            &&& ns@.len() == valid.len()
            &&& forall|k: int|
                0 <= k < valid.len() ==> (#[trigger] ns@[k])@ == encode_utf8(
                    trimmed_text(valid[k]),
                )
        }),
{
    let ghost ds = inputs@.map_values(|s: String| s@);
    let ghost e0 = errors@;
    let mut out: Vec<CoverContributorName> = Vec::new();
    let mut i: usize = 0;
    while i < inputs.len()
        invariant
            i <= inputs@.len(),
            ds == inputs@.map_values(|s: String| s@),
            appended(e0, errors@, covers_errors(ds.subrange(0, i as int))),
            out@.len() == valid_covers(ds.subrange(0, i as int)).len(),
            forall|k: int|
                0 <= k < out@.len() ==> (#[trigger] out@[k])@ == encode_utf8(
                    trimmed_text(valid_covers(ds.subrange(0, i as int))[k]),
                ),
        decreases inputs@.len() - i,
    {
        let mut subject = String::from_str("#");
        let num = decimal_string(i as u64);
        subject.append(num.as_str());
        let one = bounded_text::<128>(inputs[i].as_str(), "cover_contributors", &subject, errors);
        proof {
            let pre = ds.subrange(0, i as int);
            let post = ds.subrange(0, i as int + 1);
            assert(post.drop_last() =~= pre);
            assert(post.last() == inputs@[i as int]@);
            reveal(Seq::filter);
            assert(errors_view(errors@) =~= errors_view(e0) + covers_errors(post));
        }
        match one {
            Some(n) => {
                out.push(n);
            },
            None => {},
        }
        i += 1;
    }
    assert(ds.subrange(0, inputs@.len() as int) =~= ds);
    let fits = check_count(errors, "cover_contributors", "cover contributors ", out.len(), 16);
    assert(errors_view(errors@) =~= errors_view(e0) + (covers_errors(ds) + count_errors(
        "cover_contributors"@,
        "cover contributors "@,
        valid_covers(ds).len(),
        16,
    )));
    if fits {
        match Bounded::try_new(out) {
            Ok(b) => Some(b),
            Err(_) => None,
        }
    } else {
        None
    }
}

impl ReleaseBuilder {
    /// Empty builder. Every mandatory input must be set before
    /// [`build`](Self::build).
    pub fn new() -> (r: Self)
        ensures
            r@ == (ReleaseDraft {
                upc: None,
                title: None,
                title_aliases: seq![],
                artist: None,
                tracks: seq![],
                producers: seq![],
                status: None,
                release_date: None,
                country: None,
                distributor_name: None,
                release_type: None,
                format: None,
                packaging: None,
                cover_contributors: seq![],
                offchain_extension: None,
            }),
    {
        let r = ReleaseBuilder {
            upc_raw: None,
            title_raw: None,
            title_aliases_raw: Vec::new(),
            artist: None,
            tracks: Vec::new(),
            producers_raw: Vec::new(),
            status: None,
            release_date: None,
            country: None,
            distributor_raw: None,
            release_type: None,
            format: None,
            packaging: None,
            cover_contributors_raw: Vec::new(),
            offchain_extension_raw: None,
        };
        assert(r@.title_aliases =~= seq![]);
        assert(r@.tracks =~= seq![]);
        assert(r@.producers =~= seq![]);
        assert(r@.cover_contributors =~= seq![]);
        r
    }

    /// Free-form UPC / EAN input (anything `parse_upc` accepts).
    pub fn upc(self, s: &str) -> (r: Self)
        ensures
            r@ == (ReleaseDraft { upc: Some(s@), ..self@ }),
    {
        let mut b = self;
        b.upc_raw = Some(String::from_str(s));
        b
    }

    /// Title; trimmed of surrounding white space at build time.
    pub fn title(self, s: &str) -> (r: Self)
        ensures
            r@ == (ReleaseDraft { title: Some(s@), ..self@ }),
    {
        let mut b = self;
        b.title_raw = Some(String::from_str(s));
        b
    }

    /// Appends an alternative / localised title.
    pub fn add_title_alias(self, s: &str) -> (r: Self)
        ensures
            r@ == (ReleaseDraft { title_aliases: self@.title_aliases.push(s@), ..self@ }),
    {
        let mut b = self;
        b.title_aliases_raw.push(String::from_str(s));
        assert(b@.title_aliases =~= self@.title_aliases.push(s@));
        b
    }

    /// Artist identified by an IPI (anything `parse_ipi` accepts).
    pub fn artist_ipi(self, ipi: &str) -> (r: Self)
        ensures
            r@ == (ReleaseDraft { artist: Some(PartyDraft { raw: ipi@, kind: PartyKind::Ipi }), ..self@ }),
    {
        let mut b = self;
        b.artist = Some(PartyInput::new(ipi, PartyKind::Ipi));
        b
    }

    /// Artist identified by an ISNI (anything `parse_isni` accepts).
    pub fn artist_isni(self, isni: &str) -> (r: Self)
        ensures
            r@ == (ReleaseDraft { artist: Some(PartyDraft { raw: isni@, kind: PartyKind::Isni }), ..self@ }),
    {
        let mut b = self;
        b.artist = Some(PartyInput::new(isni, PartyKind::Isni));
        b
    }

    /// Appends a track referenced by its on-chain MIDDS id.
    pub fn add_track_midds(self, id: u64) -> (r: Self)
        ensures
            r@ == (ReleaseDraft { tracks: self@.tracks.push(TrackDraft::Midds(id)), ..self@ }),
    {
        let mut b = self;
        b.tracks.push(TrackInput::Midds(id));
        assert(b@.tracks =~= self@.tracks.push(TrackDraft::Midds(id)));
        b
    }

    /// Appends a track referenced by free-form ISRC text.
    pub fn add_track_isrc(self, isrc: &str) -> (r: Self)
        ensures
            r@ == (ReleaseDraft { tracks: self@.tracks.push(TrackDraft::Isrc(isrc@)), ..self@ }),
    {
        let mut b = self;
        b.tracks.push(TrackInput::Isrc(String::from_str(isrc)));
        assert(b@.tracks =~= self@.tracks.push(TrackDraft::Isrc(isrc@)));
        b
    }

    /// Appends a producer: its ISNI and the catalog number it issued the
    /// release under.
    pub fn add_producer(self, isni: &str, catalog_number: &str) -> (r: Self)
        ensures
            r@ == (ReleaseDraft { producers: self@.producers.push(ProducerDraft { isni: isni@, catalog: catalog_number@ }), ..self@ }),
    {
        let mut b = self;
        b.producers_raw.push(ProducerInput { isni_raw: String::from_str(isni), catalog_raw: String::from_str(catalog_number) });
        assert(b@.producers =~= self@.producers.push(ProducerDraft { isni: isni@, catalog: catalog_number@ }));
        b
    }

    /// Editorial status.
    pub fn status(self, status: ReleaseStatus) -> (r: Self)
        ensures
            r@ == (ReleaseDraft { status: Some(status), ..self@ }),
    {
        let mut b = self;
        b.status = Some(status);
        b
    }

    /// Release date.
    pub fn release_date(self, year: u16, month: u8, day: u8) -> (r: Self)
        ensures
            r@ == (ReleaseDraft { release_date: Some(ReleaseDate { year, month, day }), ..self@ }),
    {
        let mut b = self;
        b.release_date = Some(ReleaseDate { year, month, day });
        b
    }

    /// Country of release.
    pub fn country(self, country: Country) -> (r: Self)
        ensures
            r@ == (ReleaseDraft { country: Some(country), ..self@ }),
    {
        let mut b = self;
        b.country = Some(country);
        b
    }

    /// Distributor name; trimmed, must be non-empty within the bound.
    pub fn distributor_name(self, s: &str) -> (r: Self)
        ensures
            r@ == (ReleaseDraft { distributor_name: Some(s@), ..self@ }),
    {
        let mut b = self;
        b.distributor_raw = Some(String::from_str(s));
        b
    }

    /// Release type.
    pub fn release_type(self, release_type: ReleaseType) -> (r: Self)
        ensures
            r@ == (ReleaseDraft { release_type: Some(release_type), ..self@ }),
    {
        let mut b = self;
        b.release_type = Some(release_type);
        b
    }

    /// Physical / digital format.
    pub fn format(self, format: ReleaseFormat) -> (r: Self)
        ensures
            r@ == (ReleaseDraft { format: Some(format), ..self@ }),
    {
        let mut b = self;
        b.format = Some(format);
        b
    }

    /// Packaging.
    pub fn packaging(self, packaging: ReleasePackaging) -> (r: Self)
        ensures
            r@ == (ReleaseDraft { packaging: Some(packaging), ..self@ }),
    {
        let mut b = self;
        b.packaging = Some(packaging);
        b
    }

    /// Appends a cover-artwork contributor name.
    pub fn add_cover_contributor(self, s: &str) -> (r: Self)
        ensures
            r@ == (ReleaseDraft { cover_contributors: self@.cover_contributors.push(s@), ..self@ }),
    {
        let mut b = self;
        b.cover_contributors_raw.push(String::from_str(s));
        assert(b@.cover_contributors =~= self@.cover_contributors.push(s@));
        b
    }

    /// Off-chain extension hash, bound-checked at build time.
    pub fn offchain_extension(self, bytes: &str) -> (r: Self)
        ensures
            r@ == (ReleaseDraft { offchain_extension: Some(bytes@), ..self@ }),
    {
        let mut b = self;
        b.offchain_extension_raw = Some(String::from_str(bytes));
        b
    }

    /// Validates and finalises into a `Release::V1`.
    ///
    /// Returns `BuildError::Missing` naming the first unset mandatory input,
    /// otherwise `BuildError::Fields` with one diagnostic per failing input,
    /// otherwise the payload.
    #[verifier::rlimit(30)]
    pub fn build(self) -> (r: Result<Release, BuildError>)
        ensures
            release_build_result(self@, r),
    {
        let ghost d = self@;
        let ReleaseBuilder {
            upc_raw,
            title_raw,
            title_aliases_raw,
            artist,
            tracks,
            producers_raw,
            status,
            release_date,
            country,
            distributor_raw,
            release_type,
            format,
            packaging,
            cover_contributors_raw,
            offchain_extension_raw,
        } = self;
        let upc_raw = match upc_raw {
            Some(s) => s,
            None => return Err(BuildError::Missing("upc")),
        };
        let title_raw = match title_raw {
            Some(s) => s,
            None => return Err(BuildError::Missing("title")),
        };
        let artist_in = match artist {
            Some(a) => a,
            None => return Err(BuildError::Missing("artist")),
        };
        let status = match status {
            Some(v) => v,
            None => return Err(BuildError::Missing("status")),
        };
        let release_date = match release_date {
            Some(v) => v,
            None => return Err(BuildError::Missing("release_date")),
        };
        let country = match country {
            Some(v) => v,
            None => return Err(BuildError::Missing("country")),
        };
        let distributor_raw = match distributor_raw {
            Some(v) => v,
            None => return Err(BuildError::Missing("distributor_name")),
        };
        let release_type = match release_type {
            Some(v) => v,
            None => return Err(BuildError::Missing("release_type")),
        };
        let format = match format {
            Some(v) => v,
            None => return Err(BuildError::Missing("format")),
        };
        let packaging = match packaging {
            Some(v) => v,
            None => return Err(BuildError::Missing("packaging")),
        };
        if tracks.len() == 0 {
            return Err(BuildError::Missing("tracks"));
        }
        let mut errors: Vec<FieldError> = Vec::new();
        let ghost e0 = errors@;
        let upc = match parse_upc(upc_raw.as_str()) {
            Ok(v) => {
                assert(errors_view(errors@) =~= errors_view(e0) + seq![]);
                Some(v)
            },
            Err(e) => {
                push_parse_error(&mut errors, "upc", &String::new(), upc_raw.as_str(), e);
                None
            },
        };
        let ghost e1 = errors@;
        let title = bounded_text::<256>(
            title_raw.as_str(),
            "title",
            &String::from_str("title"),
            &mut errors,
        );
        let title_aliases = build_title_aliases(&title_aliases_raw, &mut errors);
        let artist = parse_party(&artist_in, "artist", &String::new(), &mut errors);
        let tracks = build_tracks(&tracks, &mut errors);
        let producers = build_producers(&producers_raw, &mut errors);
        let distributor_name = bounded_text::<128>(
            distributor_raw.as_str(),
            "distributor_name",
            &String::from_str("distributor name"),
            &mut errors,
        );
        let cover_contributors = build_cover_contributors(&cover_contributors_raw, &mut errors);
        let offchain = offchain_hash(&offchain_extension_raw, &mut errors);
        proof {
            assert(d.upc->0 == upc_raw@);
            assert(d.title->0 == title_raw@);
            assert(d.artist->0 == artist_in@);
            assert(d.distributor_name->0 == distributor_raw@);
            assert(errors_view(e0) =~= seq![]);
            assert(errors_view(e1) =~= parse_errors("upc"@, seq![], upc_raw@, upc_text(upc_raw@)));
            assert(errors_view(errors@) == release_errors(d));
        }
        if errors.len() > 0 {
            return Err(BuildError::Fields(errors));
        }
        match (upc, title, title_aliases, artist, tracks, producers, distributor_name) {
            (
                Some(upc),
                Some(title),
                Some(title_aliases),
                Some(artist),
                Some(tracks),
                Some(producers),
                Some(distributor_name),
            ) => match (cover_contributors, offchain) {
                (Some(cover_contributors), Some(offchain_extension)) => Ok(
                    Release::V1(
                        ReleaseV1 {
                            upc,
                            title,
                            title_aliases,
                            artist,
                            featuring: Bounded::new(),
                            tracks,
                            producers,
                            status,
                            release_date,
                            country,
                            distributor_name,
                            release_type,
                            format,
                            packaging,
                            cover_contributors,
                            offchain_extension,
                        },
                    ),
                ),
                _ => Err(BuildError::Fields(errors)),
            },
            _ => Err(BuildError::Fields(errors)),
        }
    }
}

/// The release date is kept as given: when `release_date(year, month, day)`
/// was set and the build succeeds, the built release's date has exactly
/// that year, month and day.
pub proof fn lemma_built_release_date(
    d: ReleaseDraft,
    year: u16,
    month: u8,
    day: u8,
    r: Result<Release, BuildError>,
)
    requires
        release_build_result(
            ReleaseDraft { release_date: Some(ReleaseDate { year, month, day }), ..d },
            r,
        ),
        r is Ok,
    ensures
        r matches Ok(Release::V1(v)) && v.release_date.year == year && v.release_date.month
            == month && v.release_date.day == day,
{
}

/// The release's settings are kept as given: when the build succeeds, the
/// built status, country, type, format and packaging are the ones set, the
/// distributor is the set name trimmed, and the tracks are numbered `1, 2,
/// …` in the order they were added.
pub proof fn lemma_built_release_settings(
    d: ReleaseDraft,
    status: ReleaseStatus,
    country: Country,
    release_type: ReleaseType,
    format: ReleaseFormat,
    packaging: ReleasePackaging,
    distributor: Seq<char>,
    r: Result<Release, BuildError>,
)
    requires
        release_build_result(
            ReleaseDraft {
                status: Some(status),
                country: Some(country),
                release_type: Some(release_type),
                format: Some(format),
                packaging: Some(packaging),
                distributor_name: Some(distributor),
                ..d
            },
            r,
        ),
        r is Ok,
    ensures
        r matches Ok(Release::V1(v)) && {
            &&& v.status == status && v.country == country
            &&& v.release_type == release_type && v.format == format
            &&& v.packaging == packaging
            &&& v.distributor_name@ == encode_utf8(trimmed_text(distributor))
            &&& forall|k: int| 0 <= k < v.tracks@.len() ==> (#[trigger] v.tracks@[k]).number == k + 1
        },
{
}

} // verus!
