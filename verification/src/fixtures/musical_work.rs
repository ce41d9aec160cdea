//! `MusicalWork` fixtures: a builder over already-bounded inputs and seeded
//! random generation.
use vstd::prelude::*;
use vstd::slice::slice_to_vec;

use crate::bounded::Bounded;
use crate::fixtures::identifiers::{
    ipi_from_stem, ipi_random, isni_random, iswc_for_code, iswc_for_index,
};
use crate::fixtures::draws::{creator_draw, creator_view, musical_work_draw, musical_work_drawn, roles_of};
use crate::fixtures::rng::{draw_between, repeat, rng_draw, FixtureRng};
use crate::fixtures::{alphabet_text, random_party_id, random_text};
use crate::identifier::{ipi_format, isni_format, iswc_format, Iswc, OffchainHash};
use crate::language::Language;
use crate::midds::Midds;
use crate::musical_work::{
    creator_check, creator_rule, musical_work_v1_check, CatalogNumber, ClassicalInfo, Creator,
    CreatorRole, CreatorRoles, Creators, MusicalWork, MusicalWorkV1, Opus, WorkType,
};
use crate::scan::lemma_first_failure_all_ok;
use crate::shared::{party_id_check, Mode, MusicalKey, PartyId, PitchClass};

verus! {

/// Fluent builder over already-canonical inputs. Test-ergonomic: it takes
/// bounded values and its callers keep them within the bounds.
#[derive(Debug, Clone)]
pub struct MusicalWorkBuilder {
    draft: MusicalWorkV1,
}

impl View for MusicalWorkBuilder {
    type V = MusicalWorkV1;

    /// The payload `build` returns.
    closed spec fn view(&self) -> MusicalWorkV1 {
        self.draft
    }
}

/// How many roles the set holds.
pub open spec fn role_count(r: CreatorRoles) -> int {
    (if r.author { 1int } else { 0int }) + (if r.composer { 1int } else { 0int }) + (if r.arranger {
        1int
    } else {
        0int
    }) + (if r.adapter { 1int } else { 0int }) + (if r.publisher { 1int } else { 0int })
}

/// The set holding only `role`.
fn single_role(role: CreatorRole) -> (r: CreatorRoles)
    ensures
        r.has(role),
        forall|other: CreatorRole| other != role ==> !r.has(other),
        !r.spec_is_empty(),
        role_count(r) == 1,
        r == roles_of(role),
{
    let mut set = CreatorRoles::new();
    let _ = set.try_insert(role);
    proof {
        assert(set.has(CreatorRole::Author) == (role == CreatorRole::Author));
        assert(set.has(CreatorRole::Composer) == (role == CreatorRole::Composer));
        assert(set.has(CreatorRole::Arranger) == (role == CreatorRole::Arranger));
        assert(set.has(CreatorRole::Adapter) == (role == CreatorRole::Adapter));
        assert(set.has(CreatorRole::Publisher) == (role == CreatorRole::Publisher));
    }
    set
}

impl MusicalWorkBuilder {
    /// Builder with valid defaults: the ISWC of index 0, the title
    /// `Untitled`, year 2024, not instrumental, `Original`, and a single
    /// composer with a checksum-correct synthetic IPI. Building it gives a
    /// payload that passes `validate_format`.
    pub fn new() -> (r: Self)
        ensures
            r@.iswc@ == iswc_for_code(0),
            r@.title@ == seq![85u8, 110, 116, 105, 116, 108, 101, 100],
            r@.creation_year == Some(2024u16),
            !r@.instrumental,
            r@.language is None,
            !r@.explicit_lyrics,
            r@.bpm is None,
            r@.key is None,
            r@.work_type == WorkType::Original,
            r@.samples@.len() == 0,
            r@.creators@.len() == 1,
            r@.classical_info is None,
            r@.offchain_extension is None,
            musical_work_v1_check(r@) is Ok,
    {
        let iswc = iswc_for_index(0);
        let creator = Creator {
            roles: single_role(CreatorRole::Composer),
            party: PartyId::Ipi(ipi_from_stem(123_456_789, 9)),
        };
        let mut creators: Creators = Bounded::new();
        let _ = creators.try_push(creator);
        // "Untitled"
        let title = match Bounded::try_new(vec![85u8, 110, 116, 105, 116, 108, 101, 100]) {
            Ok(t) => t,
            Err(_) => Bounded::new(),
        };
        let draft = MusicalWorkV1 {
            iswc,
            title,
            creation_year: Some(2024),
            instrumental: false,
            language: None,
            explicit_lyrics: false,
            bpm: None,
            key: None,
            work_type: WorkType::Original,
            samples: Bounded::new(),
            creators,
            classical_info: None,
            offchain_extension: None,
        };
        proof {
            assert(creator_rule(draft.creators@)(0) is Ok);
            lemma_first_failure_all_ok(0, 1, creator_rule(draft.creators@));
            lemma_first_failure_all_ok(0, 0, crate::musical_work::sample_rule(draft.samples@, draft.iswc@));
        }
        MusicalWorkBuilder { draft }
    }

    /// Overrides the canonical identifier.
    pub fn iswc(self, iswc: Iswc) -> (r: Self)
        ensures
            r@ == (MusicalWorkV1 { iswc, ..self@ }),
    {
        let mut b = self;
        b.draft.iswc = iswc;
        b
    }

    /// Overrides the title (at most 256 bytes).
    pub fn title(self, bytes: &[u8]) -> (r: Self)
        requires
            bytes@.len() <= 256,
        ensures
            r@ == (MusicalWorkV1 { title: r@.title, ..self@ }),
            r@.title@ == bytes@,
    {
        let mut b = self;
        if let Ok(t) = Bounded::try_new(slice_to_vec(bytes)) {
            b.draft.title = t;
        }
        b
    }

    /// Sets the creation year.
    pub fn creation_year(self, year: u16) -> (r: Self)
        ensures
            r@ == (MusicalWorkV1 { creation_year: Some(year), ..self@ }),
    {
        let mut b = self;
        b.draft.creation_year = Some(year);
        b
    }

    /// Sets whether the work is instrumental.
    pub fn instrumental(self, value: bool) -> (r: Self)
        ensures
            r@ == (MusicalWorkV1 { instrumental: value, ..self@ }),
    {
        let mut b = self;
        b.draft.instrumental = value;
        b
    }

    /// Sets the lyrics language.
    pub fn language(self, language: Language) -> (r: Self)
        ensures
            r@ == (MusicalWorkV1 { language: Some(language), ..self@ }),
    {
        let mut b = self;
        b.draft.language = Some(language);
        b
    }

    /// Sets the tempo.
    pub fn bpm(self, bpm: u16) -> (r: Self)
        ensures
            r@ == (MusicalWorkV1 { bpm: Some(bpm), ..self@ }),
    {
        let mut b = self;
        b.draft.bpm = Some(bpm);
        b
    }

    /// Sets the key.
    pub fn key(self, key: MusicalKey) -> (r: Self)
        ensures
            r@ == (MusicalWorkV1 { key: Some(key), ..self@ }),
    {
        let mut b = self;
        b.draft.key = Some(key);
        b
    }

    /// Sets the work type.
    pub fn work_type(self, work_type: WorkType) -> (r: Self)
        ensures
            r@ == (MusicalWorkV1 { work_type, ..self@ }),
    {
        let mut b = self;
        b.draft.work_type = work_type;
        b
    }

    /// Replaces the creators (at most 32).
    pub fn creators_unchecked(self, creators: Vec<Creator>) -> (r: Self)
        requires
            creators@.len() <= 32,
        ensures
            r@ == (MusicalWorkV1 { creators: r@.creators, ..self@ }),
            r@.creators@ == creators@,
    {
        let mut b = self;
        if let Ok(c) = Bounded::try_new(creators) {
            b.draft.creators = c;
        }
        b
    }

    /// Appends a creator (the list must have room).
    pub fn add_creator(self, creator: Creator) -> (r: Self)
        requires
            self@.creators@.len() < 32,
        ensures
            r@ == (MusicalWorkV1 { creators: r@.creators, ..self@ }),
            r@.creators@ == self@.creators@.push(creator),
    {
        let mut b = self;
        let _ = b.draft.creators.try_push(creator);
        b
    }

    /// Attaches classical-music metadata (opus and catalog number at most 32
    /// bytes each).
    pub fn classical_info(
        self,
        opus: Option<&[u8]>,
        catalog_number: Option<&[u8]>,
        number_of_voices: Option<u16>,
    ) -> (r: Self)
        requires
            opus matches Some(o) ==> o@.len() <= 32,
            catalog_number matches Some(c) ==> c@.len() <= 32,
        ensures
            r@ == (MusicalWorkV1 { classical_info: r@.classical_info, ..self@ }),
            r@.classical_info matches Some(ci) && ci.number_of_voices == number_of_voices
                && (match opus {
                Some(o) => ci.opus matches Some(x) && x@ == o@,
                None => ci.opus is None,
            }) && (match catalog_number {
                Some(c) => ci.catalog_number matches Some(x) && x@ == c@,
                None => ci.catalog_number is None,
            }),
    {
        let mut b = self;
        let opus: Option<Opus> = match opus {
            Some(o) => match Bounded::try_new(slice_to_vec(o)) {
                Ok(v) => Some(v),
                Err(_) => None,
            },
            None => None,
        };
        let catalog_number: Option<CatalogNumber> = match catalog_number {
            Some(c) => match Bounded::try_new(slice_to_vec(c)) {
                Ok(v) => Some(v),
                Err(_) => None,
            },
            None => None,
        };
        b.draft.classical_info = Some(ClassicalInfo { opus, catalog_number, number_of_voices });
        b
    }

    /// Sets the off-chain extension hash (at most 64 bytes).
    pub fn offchain_extension(self, bytes: &[u8]) -> (r: Self)
        requires
            bytes@.len() <= 64,
        ensures
            r@ == (MusicalWorkV1 { offchain_extension: r@.offchain_extension, ..self@ }),
            r@.offchain_extension matches Some(h) && h@ == bytes@,
    {
        let mut b = self;
        if let Ok(h) = Bounded::try_new(slice_to_vec(bytes)) {
            b.draft.offchain_extension = Some(h);
        }
        b
    }

    /// Finalises into a `MusicalWork::V1`. Does not validate: callers that
    /// need a valid payload check `validate_format` themselves.
    pub fn build(self) -> (r: MusicalWork)
        ensures
            r == MusicalWork::V1(self@),
    {
        MusicalWork::V1(self.draft)
    }
}

/// The pool `pick_role` draws from: the five creator roles, by position.
pub open spec fn role_pool(k: int) -> CreatorRole {
    if k == 0 {
        CreatorRole::Author
    } else if k == 1 {
        CreatorRole::Composer
    } else if k == 2 {
        CreatorRole::Arranger
    } else if k == 3 {
        CreatorRole::Adapter
    } else {
        CreatorRole::Publisher
    }
}

/// A uniformly random creator role.
fn pick_role(rng: &mut FixtureRng) -> (r: CreatorRole)
    ensures
        exists|k: int| 0 <= k < 5 && r == #[trigger] role_pool(k),
        ({
            let (k, t) = draw_between(old(rng)@, 0, 4);
            r == role_pool(k as int) && final(rng)@ == t
        }),
{
    let k = rng_draw(rng, 0, 4);
    let r = if k == 0 {
        CreatorRole::Author
    } else if k == 1 {
        CreatorRole::Composer
    } else if k == 2 {
        CreatorRole::Arranger
    } else if k == 3 {
        CreatorRole::Adapter
    } else {
        CreatorRole::Publisher
    };
    assert(r == role_pool(k as int));
    r
}

/// A realistic `MusicalWork` whose ISWC is derived from `index`, so that
/// indices `0..N` give `N` distinct ISWCs. The payload is the one the
/// generator's draws produce (see [`musical_work_drawn`]); whatever they
/// are, it passes `validate_format`.
pub fn random_with_iswc_index(rng: &mut FixtureRng, index: u32) -> (r: MusicalWork)
    ensures
        r.format_rules() is Ok,
        r.identifier_spec()@ == iswc_for_code(index as nat),
        musical_work_drawn(r, old(rng)@, index),
        final(rng)@ == musical_work_draw(old(rng)@).1,
        r matches MusicalWork::V1(v) && {
            &&& alphabet_text(v.title@, 8, 64)
            &&& 1 <= v.creators@.len() <= 3
            &&& forall|k: int|
                0 <= k < v.creators@.len() ==> ((#[trigger] v.creators@[k]).party is Ipi
                    || v.creators@[k].party is Isni) && role_count(v.creators@[k].roles) == 1
            &&& v.creation_year matches Some(y) && 1900 <= y <= 2025
            &&& v.bpm matches Some(b) && 40 <= b <= 240
        },
{
    let ghost s0 = rng@;
    let iswc = iswc_for_index(index);
    let title_len = rng_draw(rng, 8, 64);
    let title = random_text(rng, title_len as usize);
    let creators_count = rng_draw(rng, 1, 3);
    let ghost s2 = rng@;
    let mut creators: Vec<Creator> = Vec::new();
    let mut k: u32 = 0;
    while k < creators_count
        invariant
            k <= creators_count <= 3,
            creators@.len() == k,
            (creators@.map_values(|c: Creator| creator_view(c)), rng@) == repeat(
                s2,
                k as nat,
                |x: (u64, nat)| creator_draw(x),
            ),
            forall|j: int|
                0 <= j < k ==> creator_check(#[trigger] creators@[j]) is Ok && (creators@[j].party is Ipi
                    || creators@[j].party is Isni) && role_count(creators@[j].roles) == 1,
        decreases creators_count - k,
    {
        let ghost before = creators@;
        let role = pick_role(rng);
        let party = random_party_id(rng);
        let c = Creator { roles: single_role(role), party };
        creators.push(c);
        assert(creators@.map_values(|c: Creator| creator_view(c)) =~= before.map_values(
            |c: Creator| creator_view(c),
        ).push(creator_view(c)));
        k += 1;
    }
    let creation_year = rng_draw(rng, 1900, 2025) as u16;
    let bpm = rng_draw(rng, 40, 240) as u16;
    let ghost cs = creators@;
    let b = MusicalWorkBuilder::new().iswc(iswc).title(title.as_slice()).creation_year(
        creation_year,
    ).instrumental(false).language(Language::En).bpm(bpm).key(
        MusicalKey { pitch: PitchClass::C, mode: Mode::Major },
    ).work_type(WorkType::Original).creators_unchecked(creators);
    let r = b.build();
    proof {
        let v = b@;
        assert(v.creators@ == cs);
        assert forall|j: int| 0 <= j < v.creators@.len() implies #[trigger] creator_rule(
            v.creators@,
        )(j) is Ok by {
            assert(creator_check(cs[j]) is Ok);
        }
        lemma_first_failure_all_ok(0, v.creators@.len() as int, creator_rule(v.creators@));
        lemma_first_failure_all_ok(0, 0, crate::musical_work::sample_rule(v.samples@, v.iswc@));
        assert(musical_work_v1_check(v) is Ok);
    }
    r
}

} // verus!
