//! The `Recording` payload (first on-chain version) and its parts.
use vstd::prelude::*;

use crate::bounded::{Bounded, MiddsString};
use crate::format_error::MiddsFormatError;
use crate::identifier::{
    isrc_format, offchain_hash_format, offchain_opt_check, validate_isrc_format, validate_offchain_hash, Isni, Isrc,
    OffchainHash,
};
use crate::lists::{
    isnis_check, parties_check, texts_check, validate_isnis, validate_parties, validate_texts,
};
use crate::midds::Midds;
use crate::scan::{first_failure, lemma_first_failure_all_ok, lemma_first_failure_at, then_check};
use crate::shared::{
    bpm_check, non_empty_check, party_id_check, performer_id_check, require_bpm_in_bounds,
    require_non_empty, require_year_in_bounds, work_ref_check, year_check, MusicalKey, PartyId,
    PerformerId, Title, WorkRef,
};

verus! {

/// Maximum number of alternative titles attached to a recording.
pub const TITLE_ALIASES_MAX: u32 = 8;

/// Maximum number of featured artists credited on the recording.
pub const FEATURING_MAX: u32 = 16;

/// Maximum number of performers credited.
pub const PERFORMERS_MAX: u32 = 64;

/// Maximum number of instruments credited to a single performer.
pub const INSTRUMENTS_PER_PERFORMER_MAX: u32 = 8;

/// Maximum number of producers credited.
pub const PRODUCERS_MAX: u32 = 8;

/// Maximum number of other contributors credited.
pub const CONTRIBUTORS_MAX: u32 = 32;

/// Maximum byte length of a production place name.
pub const PLACE_MAX_LEN: u32 = 128;

/// Alternative / localized titles for the recording.
pub type TitleAliases = Bounded<Title, 8>;

/// Featured artists credited on the recording.
pub type Featuring = Bounded<PartyId, 16>;

/// Instruments a single performer played on the recording.
pub type PerformerInstruments = Bounded<Instrument, 8>;

/// Performers credited on the recording.
pub type Performers = Bounded<Performer, 64>;

/// Producers credited on the recording (ISNI only).
pub type Producers = Bounded<Isni, 8>;

/// Other contributors credited on the recording.
pub type Contributors = Bounded<PartyId, 32>;

/// A free-text production place (studio name, city…).
pub type Place = MiddsString<128>;

/// Top-level musical genre (closed, flat, industry-aligned taxonomy).
#[derive(Clone, Copy, PartialEq, Eq, Debug, Structural)]
pub enum Genre {
    Pop,
    Rock,
    HipHop,
    RnB,
    Electronic,
    Dance,
    Jazz,
    Blues,
    Classical,
    Country,
    Folk,
    Metal,
    Punk,
    Reggae,
    Latin,
    World,
    Soul,
    Funk,
    Gospel,
    Soundtrack,
    Ambient,
    Experimental,
    Children,
    SpokenWord,
    Other,
}

/// Editorial version of a recording.
#[derive(Clone, Copy, PartialEq, Eq, Debug, Structural)]
pub enum RecordingVersion {
    /// The original studio version.
    Original,
    /// Shortened cut for broadcast.
    RadioEdit,
    /// Lengthened cut.
    Extended,
    /// Reworked by a remixer.
    Remix,
    /// Recorded in front of an audience.
    Live,
    /// Unplugged / acoustic rendition.
    Acoustic,
    /// Vocals removed.
    Instrumental,
    /// Instruments removed.
    ACapella,
    /// Backing track for sing-along.
    Karaoke,
    /// Pre-release / working version.
    Demo,
    /// Re-recording of an earlier release.
    ReRecorded,
    /// Otherwise edited (censored, trimmed…). For the parental-advisory
    /// clean cut prefer the dedicated [`RecordingVersion::Clean`].
    Edited,
    /// Cover of another artist's recording.
    Cover,
    /// Explicit content removed or masked — the "clean" radio / retail edit
    /// (the parental-advisory counterpart to an explicit release). Appended
    /// after `Cover` so every pre-existing V1 tag byte is unchanged.
    Clean,
}

/// Instrument played by a performer on a recording.
#[derive(Clone, Copy, PartialEq, Eq, Debug, Structural)]
pub enum Instrument {
    // --- Vocals ---
    /// Vocals, family unspecified.
    Vocals,
    LeadVocals,
    BackingVocals,
    Choir,
    // --- Keyboards ---
    Piano,
    ElectricPiano,
    Organ,
    Harpsichord,
    Synthesizer,
    Accordion,
    Celesta,
    Melodica,
    /// Keyboards, type unspecified.
    Keyboards,
    // --- Plucked strings ---
    AcousticGuitar,
    ElectricGuitar,
    BassGuitar,
    ClassicalGuitar,
    /// Guitar, type unspecified.
    Guitar,
    Banjo,
    Mandolin,
    Ukulele,
    Harp,
    Sitar,
    Lute,
    Balalaika,
    Oud,
    // --- Bowed strings ---
    Violin,
    Viola,
    Cello,
    DoubleBass,
    /// Bowed-string section / unspecified.
    Strings,
    // --- Woodwinds ---
    Flute,
    Piccolo,
    Clarinet,
    Oboe,
    Bassoon,
    Saxophone,
    Recorder,
    EnglishHorn,
    Harmonica,
    Bagpipes,
    PanFlute,
    // --- Brass ---
    Trumpet,
    Cornet,
    Flugelhorn,
    Trombone,
    FrenchHorn,
    Tuba,
    Euphonium,
    // --- Pitched / mallet percussion ---
    Marimba,
    Xylophone,
    Vibraphone,
    Glockenspiel,
    Timpani,
    Steelpan,
    // --- Percussion & drums ---
    DrumKit,
    SnareDrum,
    BassDrum,
    Cymbals,
    Tambourine,
    Congas,
    Bongos,
    Djembe,
    Tabla,
    Cajon,
    Triangle,
    Castanets,
    Maracas,
    Timbales,
    Cowbell,
    HandClaps,
    /// Percussion, instrument unspecified.
    Percussion,
    // --- Electronic / production ---
    DrumMachine,
    Sampler,
    Sequencer,
    Turntables,
    Theremin,
    // --- Fallback ---
    /// Any instrument outside the list above.
    Other,
}

/// A performer credited on the recording: a performer-specific identifier
/// plus the instrument(s) played (possibly none: instrument unknown).
#[derive(Debug, Clone, PartialEq, Eq)]
pub struct Performer {
    pub id: PerformerId,
    pub instruments: PerformerInstruments,
}

/// Outcome of the performer rule: only the identifier is format-checked.
pub open spec fn performer_check(p: Performer) -> Result<(), MiddsFormatError> {
    performer_id_check(p.id)
}

impl Performer {
    /// Validates the performer identifier; the instrument list is valid by
    /// construction (closed enum, empty allowed).
    pub fn validate_format(&self) -> (r: Result<(), MiddsFormatError>)
        ensures
            r == performer_check(*self),
    {
        self.id.validate_format()
    }
}

/// Where the recording was recorded, mixed and mastered; every place is
/// optional but a present place must be non-empty.
#[derive(Debug, Clone, PartialEq, Eq)]
pub struct ProductionPlaces {
    pub recording: Option<Place>,
    pub mixing: Option<Place>,
    pub mastering: Option<Place>,
}

/// Outcome of the production-places rule.
pub open spec fn places_check(p: ProductionPlaces) -> Result<(), MiddsFormatError> {
    if p.recording matches Some(x) && x@.len() == 0 {
        Err(MiddsFormatError::EmptyMandatoryField)
    } else if p.mixing matches Some(x) && x@.len() == 0 {
        Err(MiddsFormatError::EmptyMandatoryField)
    } else if p.mastering matches Some(x) && x@.len() == 0 {
        Err(MiddsFormatError::EmptyMandatoryField)
    } else {
        Ok(())
    }
}

impl ProductionPlaces {
    /// Validates the block: every present place must be non-empty.
    pub fn validate_format(&self) -> (r: Result<(), MiddsFormatError>)
        ensures
            r == places_check(*self),
    {
        if let Some(p) = &self.recording {
            require_non_empty(p.as_slice())?;
        }
        if let Some(p) = &self.mixing {
            require_non_empty(p.as_slice())?;
        }
        if let Some(p) = &self.mastering {
            require_non_empty(p.as_slice())?;
        }
        Ok(())
    }
}

/// First on-chain version of a `Recording`. Mandatory fields: `isrc`,
/// `title`, `artist`, `work`; everything else is optional or may be empty.
#[derive(Debug, Clone, PartialEq, Eq)]
pub struct RecordingV1 {
    pub isrc: Isrc,
    pub title: Title,
    pub title_aliases: TitleAliases,
    pub artist: PartyId,
    pub featuring: Featuring,
    pub work: WorkRef,
    /// Primary genre (`None` when unknown).
    pub genre: Option<Genre>,
    /// Secondary genre; only meaningful alongside a primary `genre`.
    pub sub_genre: Option<Genre>,
    pub record_year: Option<u16>,
    pub version_type: Option<RecordingVersion>,
    pub performers: Performers,
    pub producers: Producers,
    /// Recording length in whole seconds.
    pub duration: Option<u32>,
    pub bpm: Option<u16>,
    pub key: Option<MusicalKey>,
    pub places: Option<ProductionPlaces>,
    pub contributors: Contributors,
    pub offchain_extension: Option<OffchainHash>,
}

/// Performer rule of each element of a list.
pub open spec fn performer_rule(s: Seq<Performer>) -> spec_fn(int) -> Result<(), MiddsFormatError> {
    |i: int| performer_check(s[i])
}

/// Outcome of validating every performer in order.
pub open spec fn performers_check(s: Seq<Performer>) -> Result<(), MiddsFormatError> {
    first_failure(0, s.len() as int, performer_rule(s))
}

/// Outcome of the genre rule: a sub-genre needs a primary genre.
pub open spec fn genre_check(genre: Option<Genre>, sub_genre: Option<Genre>) -> Result<(), MiddsFormatError> {
    if sub_genre is Some && genre is None {
        Err(MiddsFormatError::CrossFieldInconsistency)
    } else {
        Ok(())
    }
}

/// Outcome of the optional production-places rule.
pub open spec fn places_opt_check(p: Option<ProductionPlaces>) -> Result<(), MiddsFormatError> {
    match p {
        Some(x) => places_check(x),
        None => Ok(()),
    }
}

/// Outcome of every structural rule of a `RecordingV1`, in rule order.
pub open spec fn recording_v1_check(r: RecordingV1) -> Result<(), MiddsFormatError> {
    then_check(
        isrc_format(r.isrc@),
        then_check(
            non_empty_check(r.title@),
            then_check(
                texts_check(r.title_aliases@),
                then_check(
                    year_check(r.record_year),
                    then_check(
                        bpm_check(r.bpm),
                        then_check(
                            genre_check(r.genre, r.sub_genre),
                            then_check(
                                party_id_check(r.artist),
                                then_check(
                                    parties_check(r.featuring@),
                                    then_check(
                                        work_ref_check(r.work),
                                        then_check(
                                            performers_check(r.performers@),
                                            then_check(
                                                isnis_check(r.producers@),
                                                then_check(
                                                    parties_check(r.contributors@),
                                                    then_check(
                                                        places_opt_check(r.places),
                                                        offchain_opt_check(r.offchain_extension),
                                                    ),
                                                ),
                                            ),
                                        ),
                                    ),
                                ),
                            ),
                        ),
                    ),
                ),
            ),
        ),
    )
}

/// Validates every performer of `list`; reports the first failure.
fn validate_performers(list: &Performers) -> (r: Result<(), MiddsFormatError>)
    ensures
        r == performers_check(list@),
{
    let n = list.len();
    let ghost f = performer_rule(list@);
    let mut i: usize = 0;
    while i < n
        invariant
            n == list@.len(),
            i <= n,
            f == performer_rule(list@),
            forall|j: int| 0 <= j < i ==> #[trigger] f(j) is Ok,
        decreases n - i,
    {
        let r = list.get(i).validate_format();
        if r.is_err() {
            proof {
                lemma_first_failure_at(0, n as int, i as int, f);
            }
            return r;
        }
        i += 1;
    }
    proof {
        lemma_first_failure_all_ok(0, n as int, f);
    }
    Ok(())
}

impl RecordingV1 {
    /// Validates every structural rule of the payload; the error is the one
    /// of the first violated rule.
    pub fn validate_format(&self) -> (r: Result<(), MiddsFormatError>)
        ensures
            r == recording_v1_check(*self),
    {
        validate_isrc_format(self.isrc.as_slice())?;
        require_non_empty(self.title.as_slice())?;
        validate_texts(&self.title_aliases)?;
        require_year_in_bounds(self.record_year)?;
        require_bpm_in_bounds(self.bpm)?;
        if self.sub_genre.is_some() && self.genre.is_none() {
            return Err(MiddsFormatError::CrossFieldInconsistency);
        }
        self.artist.validate_format()?;
        validate_parties(&self.featuring)?;
        self.work.validate_format()?;
        validate_performers(&self.performers)?;
        validate_isnis(&self.producers)?;
        validate_parties(&self.contributors)?;
        if let Some(places) = &self.places {
            places.validate_format()?;
        }
        if let Some(h) = &self.offchain_extension {
            validate_offchain_hash(h.as_slice())?;
        }
        Ok(())
    }
}

/// Top-level versioned `Recording`.
#[derive(Debug, Clone, PartialEq, Eq)]
pub enum Recording {
    V1(RecordingV1),
}

impl Midds for Recording {
    const KIND: &'static str = "Recording";

    type Identifier = Isrc;

    open spec fn identifier_spec(&self) -> Isrc {
        match self {
            Recording::V1(v) => v.isrc,
        }
    }

    open spec fn format_rules(&self) -> Result<(), MiddsFormatError> {
        match self {
            Recording::V1(v) => recording_v1_check(*v),
        }
    }

    fn identifier(&self) -> (r: &Isrc) {
        match self {
            Recording::V1(v) => &v.isrc,
        }
    }

    fn validate_format(&self) -> (r: Result<(), MiddsFormatError>) {
        match self {
            Recording::V1(v) => v.validate_format(),
        }
    }
}

} // verus!
