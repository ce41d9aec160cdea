//! Shared test fixtures: what a plausible MIDDS payload looks like.
//!
//! Synthetic checksum-correct identifiers, builders over already-bounded
//! inputs, seeded random generation, boundary payloads and deterministic
//! bulk generation.
use vstd::prelude::*;

use crate::fixtures::identifiers::{
    ipi_random, isni_random, isrc_for, iswc_for_code, lemma_isrc_for_index_injective,
    lemma_iswc_for_index_injective, lemma_upc_for_index_injective, upc_for,
};
use crate::fixtures::draws::{musical_work_drawn, musical_work_state, party_draw, party_view, recording_drawn, recording_state, release_drawn, release_state, same_generated_recording, same_generated_release, same_generated_work, text_byte, text_char_draw, text_draw};
use crate::fixtures::rng::{repeat, rng_bool, rng_draw, FixtureRng};
use crate::midds::Midds;
use crate::musical_work::MusicalWork;
use crate::recording::Recording;
use crate::release::Release;
use crate::shared::{party_id_check, PartyId};

pub mod assembly;
pub mod corpus;
pub mod draws;
pub mod identifiers;
pub mod musical_work;
pub mod pathological;
pub mod recording;
pub mod release;
pub mod rng;
pub mod strategy;

pub use musical_work::MusicalWorkBuilder;
pub use recording::{RecordingBuilder, RecordingFixtures};
pub use release::{ReleaseBuilder, ReleaseFixtures};
pub use rng::seeded_rng;

verus! {

/// A byte of the fixture text alphabet `abcdefghijklmnopqrstuvwxyz `.
pub open spec fn text_alphabet(b: u8) -> bool {
    (97 <= b && b <= 122) || b == 32
}

/// `s` has `lo` to `hi` bytes, each of the fixture text alphabet.
pub open spec fn alphabet_text(s: Seq<u8>, lo: nat, hi: nat) -> bool {
    &&& lo <= s.len() <= hi
    &&& forall|i: int| 0 <= i < s.len() ==> text_alphabet(#[trigger] s[i])
}

/// `n` random characters of the fixture text alphabet.
pub(crate) fn random_text(rng: &mut FixtureRng, n: usize) -> (r: Vec<u8>)
    ensures
        alphabet_text(r@, n as nat, n as nat),
        (r@, final(rng)@) == text_draw(old(rng)@, n as nat),
{
    let ghost s0 = rng@;
    let mut text: Vec<u8> = Vec::new();
    let mut k: usize = 0;
    while k < n
        invariant
            k <= n,
            text@.len() == k,
            (text@, rng@) == repeat(s0, k as nat, |x: (u64, nat)| text_char_draw(x)),
            forall|i: int| 0 <= i < k ==> text_alphabet(#[trigger] text@[i]),
        decreases n - k,
    {
        let c = rng_draw(rng, 0, 26);
        let b: u8 = if c < 26 {
            97 + c as u8
        } else {
            32
        };
        assert(b == text_byte(c));
        text.push(b);
        k += 1;
    }
    text
}

/// A random party: an IPI or an ISNI on a fair coin, always well-formed.
pub(crate) fn random_party_id(rng: &mut FixtureRng) -> (r: PartyId)
    ensures
        party_id_check(r) is Ok,
        r is Ipi || r is Isni,
        (party_view(r), final(rng)@) == party_draw(old(rng)@),
{
    if rng_bool(rng) {
        PartyId::Ipi(ipi_random(rng))
    } else {
        PartyId::Isni(isni_random(rng))
    }
}

/// Scaffolding entry points of one MIDDS type's fixtures, so generic test
/// code is written once over `F: MiddsFixtures`.
pub trait MiddsFixtures {
    /// The payload type generated.
    type Item: Midds;

    /// Bulk generation from a seed, with distinct identifiers. Each
    /// implementation states which payloads a seed gives (the ones its
    /// draws produce), so that the same `(seed, count)` gives the same
    /// payloads.
    fn gen_n(seed: u64, count: u32) -> (r: Vec<Self::Item>)
        ensures
            r@.len() == count,
            forall|i: int|
                0 <= i < count ==> Self::identifier_bytes((#[trigger] r@[i]).identifier_spec())
                    == Self::identifier_for_index(i as u32),
            count <= 100_000_000 ==> forall|i: int, j: int|
                0 <= i < j < count ==> (#[trigger] r@[i]).identifier_spec() != (
                #[trigger] r@[j]).identifier_spec(),
    ;

    /// Boundary payloads (size extremes) that pass `validate_format`.
    fn pathological() -> (r: Vec<Self::Item>)
        ensures
            r@.len() > 0,
            forall|i: int| 0 <= i < r@.len() ==> (#[trigger] r@[i]).format_rules() is Ok,
    ;

    /// A small deterministic sample of realistic payloads, for harnesses that
    /// iterate over "a corpus" of this type.
    fn corpus() -> (r: Vec<Self::Item>)
        ensures
            r@.len() > 0,
            forall|i: int, j: int|
                0 <= i < j < r@.len() ==> (#[trigger] r@[i]).identifier_spec() != (
                #[trigger] r@[j]).identifier_spec(),
    ;

    /// The bytes of an identifier of the generated payloads.
    spec fn identifier_bytes(id: <Self::Item as Midds>::Identifier) -> Seq<u8>;

    /// The identifier, as bytes, that index `index` gives.
    spec fn identifier_for_index(index: u32) -> Seq<u8>;

    /// How many indices, from 0, give pairwise distinct identifiers.
    spec fn distinct_indices() -> nat;

    /// Distinct indices below [`Self::distinct_indices`] give distinct
    /// identifiers.
    proof fn lemma_index_identifiers_distinct(a: u32, b: u32)
        requires
            a != b,
            a < Self::distinct_indices(),
            b < Self::distinct_indices(),
        ensures
            Self::identifier_for_index(a) != Self::identifier_for_index(b),
    ;

    /// A realistic payload whose identifier is derived from `index`.
    fn random_with_index(rng: &mut FixtureRng, index: u32) -> (r: Self::Item)
        ensures
            Self::identifier_bytes(r.identifier_spec()) == Self::identifier_for_index(index),
    ;

    /// The smallest valid payload, carrying the identifier of `index`.
    fn min_size_with_index(index: u32) -> (r: Self::Item)
        ensures
            r.format_rules() is Ok,
            Self::identifier_bytes(r.identifier_spec()) == Self::identifier_for_index(index),
    ;

    /// The largest valid payload, carrying the identifier of `index`.
    fn max_size_with_index(index: u32) -> (r: Self::Item)
        ensures
            r.format_rules() is Ok,
            Self::identifier_bytes(r.identifier_spec()) == Self::identifier_for_index(index),
    ;
}

/// Deterministically generates `count` musical works from `seed`. Work `i`
/// carries the ISWC of index `i` and passes `validate_format`, so the ISWCs
/// are distinct (up to `10^9` works); it is the work the draws from the
/// seeded generator produce at the state reached after the works before
/// it, so the batch depends on `(seed, count)` alone.
pub fn gen_n(seed: u64, count: u32) -> (r: Vec<MusicalWork>)
    ensures
        r@.len() == count,
        forall|i: int|
            0 <= i < count ==> (#[trigger] r@[i]).format_rules() is Ok && r@[i].identifier_spec()@
                == iswc_for_code(i as nat),
        count <= 1_000_000_000 ==> forall|i: int, j: int|
            0 <= i < j < count ==> (#[trigger] r@[i]).identifier_spec()@ != (
            #[trigger] r@[j]).identifier_spec()@,
        forall|i: int|
            0 <= i < count ==> musical_work_drawn(#[trigger] r@[i], musical_work_state(seed, i as nat), i as u32),
{
    let mut rng = seeded_rng(seed);
    let mut out: Vec<MusicalWork> = Vec::new();
    let mut i: u32 = 0;
    while i < count
        invariant
            i <= count,
            out@.len() == i,
            rng@ == musical_work_state(seed, i as nat),
            forall|k: int|
                0 <= k < i ==> (#[trigger] out@[k]).format_rules() is Ok
                    && out@[k].identifier_spec()@ == iswc_for_code(k as nat)
                    && musical_work_drawn(out@[k], musical_work_state(seed, k as nat), k as u32),
        decreases count - i,
    {
        out.push(musical_work::random_with_iswc_index(&mut rng, i));
        i += 1;
    }
    proof {
        if count <= 1_000_000_000 {
            assert forall|a: int, b: int| 0 <= a < b < count implies (
            #[trigger] out@[a]).identifier_spec()@ != (#[trigger] out@[b]).identifier_spec()@ by {
                lemma_iswc_for_index_injective(a as u32, b as u32);
            }
        }
    }
    out
}

/// Deterministically generates `count` recordings from `seed`. Recording
/// `i` carries the ISRC of index `i` and passes `validate_format`, so the
/// ISRCs are distinct (up to `10^8` recordings); it is the recording the
/// draws from the seeded generator produce at the state reached after the
/// recordings before it.
pub fn gen_n_recording(seed: u64, count: u32) -> (r: Vec<Recording>)
    ensures
        r@.len() == count,
        forall|i: int|
            0 <= i < count ==> (#[trigger] r@[i]).format_rules() is Ok && r@[i].identifier_spec()@
                == isrc_for(i as nat),
        count <= 100_000_000 ==> forall|i: int, j: int|
            0 <= i < j < count ==> (#[trigger] r@[i]).identifier_spec()@ != (
            #[trigger] r@[j]).identifier_spec()@,
        forall|i: int|
            0 <= i < count ==> recording_drawn(#[trigger] r@[i], recording_state(seed, i as nat), i as u32),
{
    let mut rng = seeded_rng(seed);
    let mut out: Vec<Recording> = Vec::new();
    let mut i: u32 = 0;
    while i < count
        invariant
            i <= count,
            out@.len() == i,
            rng@ == recording_state(seed, i as nat),
            forall|k: int|
                0 <= k < i ==> (#[trigger] out@[k]).format_rules() is Ok
                    && out@[k].identifier_spec()@ == isrc_for(k as nat)
                    && recording_drawn(out@[k], recording_state(seed, k as nat), k as u32),
        decreases count - i,
    {
        out.push(recording::random_with_isrc_index(&mut rng, i));
        i += 1;
    }
    proof {
        if count <= 100_000_000 {
            assert forall|a: int, b: int| 0 <= a < b < count implies (
            #[trigger] out@[a]).identifier_spec()@ != (#[trigger] out@[b]).identifier_spec()@ by {
                lemma_isrc_for_index_injective(a as u32, b as u32);
            }
        }
    }
    out
}

/// Deterministically generates `count` releases from `seed`. Release `i`
/// carries the UPC of index `i`, so the UPCs are distinct; a release passes
/// `validate_format` whenever its random tracks are distinct recordings.
/// Release `i` is the one the draws from the seeded generator produce at
/// the state reached after the releases before it.
pub fn gen_n_release(seed: u64, count: u32) -> (r: Vec<Release>)
    ensures
        r@.len() == count,
        forall|i: int|
            0 <= i < count ==> (#[trigger] r@[i]).identifier_spec()@ == upc_for(i as nat) && (
            r@[i] matches Release::V1(v) && (release::distinct_recordings(v.tracks@)
                ==> r@[i].format_rules() is Ok)),
        forall|i: int, j: int|
            0 <= i < j < count ==> (#[trigger] r@[i]).identifier_spec()@ != (
            #[trigger] r@[j]).identifier_spec()@,
        forall|i: int|
            0 <= i < count ==> release_drawn(#[trigger] r@[i], release_state(seed, i as nat), upc_for(i as nat)),
{
    let mut rng = seeded_rng(seed);
    let mut out: Vec<Release> = Vec::new();
    let mut i: u32 = 0;
    while i < count
        invariant
            i <= count,
            out@.len() == i,
            rng@ == release_state(seed, i as nat),
            forall|k: int| 0 <= k < i ==> release_drawn(#[trigger] out@[k], release_state(seed, k as nat), upc_for(k as nat)),
            forall|k: int|
                0 <= k < i ==> (#[trigger] out@[k]).identifier_spec()@ == upc_for(k as nat) && (
                out@[k] matches Release::V1(v) && (release::distinct_recordings(v.tracks@)
                    ==> out@[k].format_rules() is Ok)),
        decreases count - i,
    {
        out.push(release::random_with_upc_index(&mut rng, i));
        i += 1;
    }
    proof {
        assert forall|a: int, b: int| 0 <= a < b < count implies (
        #[trigger] out@[a]).identifier_spec()@ != (#[trigger] out@[b]).identifier_spec()@ by {
            lemma_upc_for_index_injective(a as u32, b as u32);
        }
    }
    out
}

/// Reproducibility of `gen_n`: two batches that it returns for the same seed
/// and count hold the same works, byte for byte, in the same order.
pub proof fn lemma_gen_n_reproducible(seed: u64, count: u32, a: Seq<MusicalWork>, b: Seq<MusicalWork>)
    requires
        a.len() == count,
        b.len() == count,
        forall|i: int|
            0 <= i < count ==> musical_work_drawn(#[trigger] a[i], musical_work_state(seed, i as nat), i as u32),
        forall|i: int|
            0 <= i < count ==> musical_work_drawn(#[trigger] b[i], musical_work_state(seed, i as nat), i as u32),
    ensures
        forall|i: int| 0 <= i < count ==> same_generated_work(#[trigger] a[i], b[i]),
{
    assert forall|i: int| 0 <= i < count implies same_generated_work(#[trigger] a[i], b[i]) by {
        assert(musical_work_drawn(a[i], musical_work_state(seed, i as nat), i as u32));
        assert(musical_work_drawn(b[i], musical_work_state(seed, i as nat), i as u32));
    }
}

/// Reproducibility of `gen_n_recording`: two batches that it returns for the
/// same seed and count hold the same recordings, byte for byte, in the same
/// order.
pub proof fn lemma_gen_n_recording_reproducible(
    seed: u64,
    count: u32,
    a: Seq<Recording>,
    b: Seq<Recording>,
)
    requires
        a.len() == count,
        b.len() == count,
        forall|i: int|
            0 <= i < count ==> recording_drawn(#[trigger] a[i], recording_state(seed, i as nat), i as u32),
        forall|i: int|
            0 <= i < count ==> recording_drawn(#[trigger] b[i], recording_state(seed, i as nat), i as u32),
    ensures
        forall|i: int| 0 <= i < count ==> same_generated_recording(#[trigger] a[i], b[i]),
{
    assert forall|i: int| 0 <= i < count implies same_generated_recording(#[trigger] a[i], b[i]) by {
        assert(recording_drawn(a[i], recording_state(seed, i as nat), i as u32));
        assert(recording_drawn(b[i], recording_state(seed, i as nat), i as u32));
    }
}

/// Reproducibility of `gen_n_release`: two batches that it returns for the
/// same seed and count hold the same releases, byte for byte, in the same
/// order.
pub proof fn lemma_gen_n_release_reproducible(seed: u64, count: u32, a: Seq<Release>, b: Seq<Release>)
    requires
        a.len() == count,
        b.len() == count,
        forall|i: int|
            0 <= i < count ==> release_drawn(#[trigger] a[i], release_state(seed, i as nat), upc_for(i as nat)),
        forall|i: int|
            0 <= i < count ==> release_drawn(#[trigger] b[i], release_state(seed, i as nat), upc_for(i as nat)),
    ensures
        forall|i: int| 0 <= i < count ==> same_generated_release(#[trigger] a[i], b[i]),
{
    assert forall|i: int| 0 <= i < count implies same_generated_release(#[trigger] a[i], b[i]) by {
        assert(release_drawn(a[i], release_state(seed, i as nat), upc_for(i as nat)));
        assert(release_drawn(b[i], release_state(seed, i as nat), upc_for(i as nat)));
    }
}

} // verus!
