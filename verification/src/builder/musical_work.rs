//! Parser-tolerant builder for `MusicalWork::V1`.
use vstd::prelude::*;
use vstd::string::StringExecFns;
use vstd::utf8::encode_utf8;

use crate::bounded::Bounded;
use crate::builder::{
    ipi_text, isni_text, iswc_text, opt_text, appended, bounded_text, check_count, count_errors, errors_view, index_prefix,
    index_prefix_string, offchain_errors, offchain_hash, parse_errors, push_error,
    push_parse_error, text_errors, trimmed_text, FieldErrorView,
};
use crate::error::{BuildError, FieldError, ParseError};
use crate::identifier::{Ipi, Isni, Iswc};
use crate::language::Language;
use crate::musical_work::{
    Creator, CreatorRole, CreatorRoles, Creators, MusicalWork, MusicalWorkV1, SampleReferences,
    WorkType,
};
use crate::parse::{
    classified_text, ipi_outcome, isni_outcome, iswc_outcome, parse_ipi, parse_isni, parse_iswc,
};
use crate::shared::{MusicalKey, PartyId, WorkRef};
use crate::text::decimal_chars;

verus! {

/// Model of a sampled-work input.
pub enum SampleDraft {
    /// By on-chain MIDDS id (no parsing).
    Midds(u64),
    /// By free-form ISWC text.
    Iswc(Seq<char>),
}

/// Model of a creator input.
pub struct CreatorDraft {
    /// Roles attributed (duplicates collapse into the set).
    pub roles: Seq<CreatorRole>,
    /// Raw IPI text, if any.
    pub ipi: Option<Seq<char>>,
    /// Raw ISNI text, if any.
    pub isni: Option<Seq<char>>,
}

/// Model of a [`MusicalWorkBuilder`]: the inputs it holds, as typed.
pub struct MusicalWorkDraft {
    pub iswc: Option<Seq<char>>,
    pub title: Option<Seq<char>>,
    pub creation_year: Option<u16>,
    pub instrumental: bool,
    pub language: Option<Language>,
    pub explicit_lyrics: bool,
    pub bpm: Option<u16>,
    pub key: Option<MusicalKey>,
    pub work_type: Option<WorkType>,
    pub samples: Seq<SampleDraft>,
    pub creators: Seq<CreatorDraft>,
    pub offchain_extension: Option<Seq<char>>,
}

/// How a sampled work was referenced by the user.
#[derive(Debug, Clone)]
enum SampleInput {
    Midds(u64),
    Iswc(String),
}

impl View for SampleInput {
    type V = SampleDraft;

    closed spec fn view(&self) -> SampleDraft {
        match self {
            SampleInput::Midds(id) => SampleDraft::Midds(*id),
            SampleInput::Iswc(s) => SampleDraft::Iswc(s@),
        }
    }
}

/// A creator the user is composing: roles plus raw identifier inputs, each
/// parsed only at build time.
#[derive(Debug, Clone)]
struct CreatorInput {
    roles: Vec<CreatorRole>,
    ipi_raw: Option<String>,
    isni_raw: Option<String>,
}

impl View for CreatorInput {
    type V = CreatorDraft;

    closed spec fn view(&self) -> CreatorDraft {
        CreatorDraft { roles: self.roles@, ipi: opt_text(self.ipi_raw), isni: opt_text(self.isni_raw) }
    }
}

/// Parser-tolerant builder for `MusicalWork::V1`.
///
/// Inputs are stored verbatim and parsed / validated only by
/// [`build`](Self::build), where every failing field surfaces as a
/// [`FieldError`] inside `BuildError::Fields`.
#[derive(Debug, Clone)]
pub struct MusicalWorkBuilder {
    iswc_raw: Option<String>,
    title_raw: Option<String>,
    creation_year: Option<u16>,
    instrumental: bool,
    language: Option<Language>,
    explicit_lyrics: bool,
    bpm: Option<u16>,
    key: Option<MusicalKey>,
    work_type: Option<WorkType>,
    samples_raw: Vec<SampleInput>,
    creators_raw: Vec<CreatorInput>,
    offchain_extension_raw: Option<String>,
}

impl View for MusicalWorkBuilder {
    type V = MusicalWorkDraft;

    closed spec fn view(&self) -> MusicalWorkDraft {
        MusicalWorkDraft {
            iswc: opt_text(self.iswc_raw),
            title: opt_text(self.title_raw),
            creation_year: self.creation_year,
            instrumental: self.instrumental,
            language: self.language,
            explicit_lyrics: self.explicit_lyrics,
            bpm: self.bpm,
            key: self.key,
            work_type: self.work_type,
            samples: self.samples_raw@.map_values(|s: SampleInput| s@),
            creators: self.creators_raw@.map_values(|c: CreatorInput| c@),
            offchain_extension: opt_text(self.offchain_extension_raw),
        }
    }
}

/// Field name of creator `i`: `creators[i]`, or `creators[overflow]` past
/// the creator capacity.
pub open spec fn creator_field(i: nat) -> Seq<char> {
    if i < 32 {
        "creators["@ + decimal_chars(i) + "]"@
    } else {
        "creators[overflow]"@
    }
}

/// Field name of creator `i`.
fn creator_field_name(i: usize) -> (r: &'static str)
    ensures
        r@ == creator_field(i as nat),
{
    proof {
        reveal_strlit("creators[");
        reveal_strlit("]");
        match i {
        0 => {
            reveal_strlit("creators[0]");
            assert(decimal_chars(0) =~= seq!['0']) by { reveal_with_fuel(decimal_chars, 3); }
        },
        1 => {
            reveal_strlit("creators[1]");
            assert(decimal_chars(1) =~= seq!['1']) by { reveal_with_fuel(decimal_chars, 3); }
        },
        2 => {
            reveal_strlit("creators[2]");
            assert(decimal_chars(2) =~= seq!['2']) by { reveal_with_fuel(decimal_chars, 3); }
        },
        3 => {
            reveal_strlit("creators[3]");
            assert(decimal_chars(3) =~= seq!['3']) by { reveal_with_fuel(decimal_chars, 3); }
        },
        4 => {
            reveal_strlit("creators[4]");
            assert(decimal_chars(4) =~= seq!['4']) by { reveal_with_fuel(decimal_chars, 3); }
        },
        5 => {
            reveal_strlit("creators[5]");
            assert(decimal_chars(5) =~= seq!['5']) by { reveal_with_fuel(decimal_chars, 3); }
        },
        6 => {
            reveal_strlit("creators[6]");
            assert(decimal_chars(6) =~= seq!['6']) by { reveal_with_fuel(decimal_chars, 3); }
        },
        7 => {
            reveal_strlit("creators[7]");
            assert(decimal_chars(7) =~= seq!['7']) by { reveal_with_fuel(decimal_chars, 3); }
        },
        8 => {
            reveal_strlit("creators[8]");
            assert(decimal_chars(8) =~= seq!['8']) by { reveal_with_fuel(decimal_chars, 3); }
        },
        9 => {
            reveal_strlit("creators[9]");
            assert(decimal_chars(9) =~= seq!['9']) by { reveal_with_fuel(decimal_chars, 3); }
        },
        10 => {
            reveal_strlit("creators[10]");
            assert(decimal_chars(10) =~= seq!['1', '0']) by { reveal_with_fuel(decimal_chars, 3); }
        },
        11 => {
            reveal_strlit("creators[11]");
            assert(decimal_chars(11) =~= seq!['1', '1']) by { reveal_with_fuel(decimal_chars, 3); }
        },
        12 => {
            reveal_strlit("creators[12]");
            assert(decimal_chars(12) =~= seq!['1', '2']) by { reveal_with_fuel(decimal_chars, 3); }
        },
        13 => {
            reveal_strlit("creators[13]");
            assert(decimal_chars(13) =~= seq!['1', '3']) by { reveal_with_fuel(decimal_chars, 3); }
        },
        14 => {
            reveal_strlit("creators[14]");
            assert(decimal_chars(14) =~= seq!['1', '4']) by { reveal_with_fuel(decimal_chars, 3); }
        },
        15 => {
            reveal_strlit("creators[15]");
            assert(decimal_chars(15) =~= seq!['1', '5']) by { reveal_with_fuel(decimal_chars, 3); }
        },
        16 => {
            reveal_strlit("creators[16]");
            assert(decimal_chars(16) =~= seq!['1', '6']) by { reveal_with_fuel(decimal_chars, 3); }
        },
        17 => {
            reveal_strlit("creators[17]");
            assert(decimal_chars(17) =~= seq!['1', '7']) by { reveal_with_fuel(decimal_chars, 3); }
        },
        18 => {
            reveal_strlit("creators[18]");
            assert(decimal_chars(18) =~= seq!['1', '8']) by { reveal_with_fuel(decimal_chars, 3); }
        },
        19 => {
            reveal_strlit("creators[19]");
            assert(decimal_chars(19) =~= seq!['1', '9']) by { reveal_with_fuel(decimal_chars, 3); }
        },
        20 => {
            reveal_strlit("creators[20]");
            assert(decimal_chars(20) =~= seq!['2', '0']) by { reveal_with_fuel(decimal_chars, 3); }
        },
        21 => {
            reveal_strlit("creators[21]");
            assert(decimal_chars(21) =~= seq!['2', '1']) by { reveal_with_fuel(decimal_chars, 3); }
        },
        22 => {
            reveal_strlit("creators[22]");
            assert(decimal_chars(22) =~= seq!['2', '2']) by { reveal_with_fuel(decimal_chars, 3); }
        },
        23 => {
            reveal_strlit("creators[23]");
            assert(decimal_chars(23) =~= seq!['2', '3']) by { reveal_with_fuel(decimal_chars, 3); }
        },
        24 => {
            reveal_strlit("creators[24]");
            assert(decimal_chars(24) =~= seq!['2', '4']) by { reveal_with_fuel(decimal_chars, 3); }
        },
        25 => {
            reveal_strlit("creators[25]");
            assert(decimal_chars(25) =~= seq!['2', '5']) by { reveal_with_fuel(decimal_chars, 3); }
        },
        26 => {
            reveal_strlit("creators[26]");
            assert(decimal_chars(26) =~= seq!['2', '6']) by { reveal_with_fuel(decimal_chars, 3); }
        },
        27 => {
            reveal_strlit("creators[27]");
            assert(decimal_chars(27) =~= seq!['2', '7']) by { reveal_with_fuel(decimal_chars, 3); }
        },
        28 => {
            reveal_strlit("creators[28]");
            assert(decimal_chars(28) =~= seq!['2', '8']) by { reveal_with_fuel(decimal_chars, 3); }
        },
        29 => {
            reveal_strlit("creators[29]");
            assert(decimal_chars(29) =~= seq!['2', '9']) by { reveal_with_fuel(decimal_chars, 3); }
        },
        30 => {
            reveal_strlit("creators[30]");
            assert(decimal_chars(30) =~= seq!['3', '0']) by { reveal_with_fuel(decimal_chars, 3); }
        },
        31 => {
            reveal_strlit("creators[31]");
            assert(decimal_chars(31) =~= seq!['3', '1']) by { reveal_with_fuel(decimal_chars, 3); }
        },
            _ => {},
        }
    }
    match i {
        0 => "creators[0]",
        1 => "creators[1]",
        2 => "creators[2]",
        3 => "creators[3]",
        4 => "creators[4]",
        5 => "creators[5]",
        6 => "creators[6]",
        7 => "creators[7]",
        8 => "creators[8]",
        9 => "creators[9]",
        10 => "creators[10]",
        11 => "creators[11]",
        12 => "creators[12]",
        13 => "creators[13]",
        14 => "creators[14]",
        15 => "creators[15]",
        16 => "creators[16]",
        17 => "creators[17]",
        18 => "creators[18]",
        19 => "creators[19]",
        20 => "creators[20]",
        21 => "creators[21]",
        22 => "creators[22]",
        23 => "creators[23]",
        24 => "creators[24]",
        25 => "creators[25]",
        26 => "creators[26]",
        27 => "creators[27]",
        28 => "creators[28]",
        29 => "creators[29]",
        30 => "creators[30]",
        31 => "creators[31]",
        _ => "creators[overflow]",
    }
}

/// Diagnostics of creator `i`, in the order they are checked: IPI, ISNI,
/// roles, then the presence of some identifier.
pub open spec fn creator_errors(d: CreatorDraft, i: nat) -> Seq<FieldErrorView> {
    let f = creator_field(i);
    (match d.ipi {
        Some(raw) => parse_errors(f, "ipi "@, raw, ipi_text(raw)),
        None => seq![],
    }) + (match d.isni {
        Some(raw) => parse_errors(f, "isni "@, raw, isni_text(raw)),
        None => seq![],
    }) + (if d.roles.len() == 0 {
        seq![(f, "no role supplied — a creator needs at least one role"@)]
    } else {
        seq![]
    }) + (if d.ipi is None && d.isni is None {
        seq![(f, "neither ipi nor isni supplied — a creator needs at least one"@)]
    } else {
        seq![]
    })
}

/// A creator input yields a creator: supplied identifiers parse, at least
/// one is supplied, and at least one role is given.
pub open spec fn creator_valid(d: CreatorDraft) -> bool {
    &&& (d.ipi matches Some(raw) ==> ipi_text(raw) is Ok)
    &&& (d.isni matches Some(raw) ==> isni_text(raw) is Ok)
    &&& !(d.ipi is None && d.isni is None)
    &&& d.roles.len() > 0
}

/// The role set of a roles list.
pub open spec fn role_set(roles: Seq<CreatorRole>) -> CreatorRoles {
    CreatorRoles {
        author: roles.contains(CreatorRole::Author),
        composer: roles.contains(CreatorRole::Composer),
        arranger: roles.contains(CreatorRole::Arranger),
        adapter: roles.contains(CreatorRole::Adapter),
        publisher: roles.contains(CreatorRole::Publisher),
    }
}

/// `p` is the party the identifiers of `d` parse to.
pub open spec fn party_from(d: CreatorDraft, p: PartyId) -> bool {
    match (d.ipi, d.isni) {
        (Some(a), Some(b)) => p matches PartyId::Both { ipi, isni } && ipi@ == ipi_text(a)->Ok_0
            && isni@ == isni_text(b)->Ok_0,
        (Some(a), None) => p matches PartyId::Ipi(v) && v@ == ipi_text(a)->Ok_0,
        (None, Some(b)) => p matches PartyId::Isni(v) && v@ == isni_text(b)->Ok_0,
        (None, None) => false,
    }
}

/// `c` is the creator built from `d`.
pub open spec fn creator_built(d: CreatorDraft, c: Creator) -> bool {
    c.roles == role_set(d.roles) && party_from(d, c.party)
}

/// Diagnostics of every creator input, in order.
pub open spec fn creators_errors(ds: Seq<CreatorDraft>) -> Seq<FieldErrorView>
    decreases ds.len(),
{
    if ds.len() == 0 {
        seq![]
    } else {
        creators_errors(ds.drop_last()) + creator_errors(ds.last(), (ds.len() - 1) as nat)
    }
}

/// The creator inputs that yield a creator, in order.
pub open spec fn valid_creators(ds: Seq<CreatorDraft>) -> Seq<CreatorDraft> {
    ds.filter(|d: CreatorDraft| creator_valid(d))
}

/// Diagnostics of sample input `i`.
pub open spec fn sample_errors(d: SampleDraft, i: nat) -> Seq<FieldErrorView> {
    match d {
        SampleDraft::Midds(_) => seq![],
        SampleDraft::Iswc(raw) => parse_errors("samples"@, index_prefix(i), raw, iswc_text(raw)),
    }
}

/// A sample input yields a reference: a MIDDS id, or ISWC text that parses.
pub open spec fn sample_valid(d: SampleDraft) -> bool {
    match d {
        SampleDraft::Midds(_) => true,
        SampleDraft::Iswc(raw) => iswc_text(raw) is Ok,
    }
}

/// `w` is the reference built from `d`.
pub open spec fn sample_built(d: SampleDraft, w: WorkRef) -> bool {
    match d {
        SampleDraft::Midds(id) => w == WorkRef::Midds(id),
        SampleDraft::Iswc(raw) => w matches WorkRef::Iswc(v) && v@ == iswc_text(raw)->Ok_0,
    }
}

/// Diagnostics of every sample input, in order.
pub open spec fn samples_errors(ds: Seq<SampleDraft>) -> Seq<FieldErrorView>
    decreases ds.len(),
{
    if ds.len() == 0 {
        seq![]
    } else {
        samples_errors(ds.drop_last()) + sample_errors(ds.last(), (ds.len() - 1) as nat)
    }
}

/// The sample inputs that yield a reference, in order.
pub open spec fn valid_samples(ds: Seq<SampleDraft>) -> Seq<SampleDraft> {
    ds.filter(|d: SampleDraft| sample_valid(d))
}

/// The first mandatory input left unset, if any.
pub open spec fn musical_work_missing(d: MusicalWorkDraft) -> Option<Seq<char>> {
    if d.iswc is None {
        Some("iswc"@)
    } else if d.title is None {
        Some("title"@)
    } else if d.creators.len() == 0 {
        Some("creators"@)
    } else {
        None
    }
}

/// Every diagnostic `build` reports when no mandatory input is missing, in
/// order: ISWC, title, creators, creator count, samples, sample count,
/// off-chain extension.
pub open spec fn musical_work_errors(d: MusicalWorkDraft) -> Seq<FieldErrorView> {
    parse_errors("iswc"@, seq![], d.iswc->0, iswc_text(d.iswc->0)) + text_errors(
        "title"@,
        "title"@,
        d.title->0,
        256,
    ) + creators_errors(d.creators) + count_errors(
        "creators"@,
        "creators "@,
        valid_creators(d.creators).len(),
        32,
    ) + samples_errors(d.samples) + count_errors(
        "samples"@,
        "samples "@,
        valid_samples(d.samples).len(),
        64,
    ) + offchain_errors(d.offchain_extension)
}

/// `v` is the payload built from `d`.
pub open spec fn musical_work_built(d: MusicalWorkDraft, v: MusicalWorkV1) -> bool {
    let samples = valid_samples(d.samples);
    let creators = valid_creators(d.creators);
    &&& v.iswc@ == iswc_text(d.iswc->0)->Ok_0
    &&& v.title@ == encode_utf8(trimmed_text(d.title->0))
    &&& v.creation_year == d.creation_year
    &&& v.instrumental == d.instrumental
    &&& v.language == d.language
    &&& v.explicit_lyrics == d.explicit_lyrics
    &&& v.bpm == d.bpm
    &&& v.key == d.key
    &&& v.work_type == (match d.work_type {
        Some(w) => w,
        None => WorkType::Original,
    })
    &&& v.samples@.len() == samples.len()
    &&& forall|k: int| 0 <= k < samples.len() ==> sample_built(samples[k], #[trigger] v.samples@[k])
    &&& v.creators@.len() == creators.len()
    &&& forall|k: int|
        0 <= k < creators.len() ==> creator_built(creators[k], #[trigger] v.creators@[k])
    &&& v.classical_info is None
    &&& match d.offchain_extension {
        Some(raw) => v.offchain_extension matches Some(h) && h@ == encode_utf8(raw),
        None => v.offchain_extension is None,
    }
}

/// What `build` returns on a builder modelled by `d`, `r` being its result.
pub open spec fn musical_work_build_result(
    d: MusicalWorkDraft,
    r: Result<MusicalWork, BuildError>,
) -> bool {
    match musical_work_missing(d) {
        Some(f) => r matches Err(BuildError::Missing(g)) && g@ == f,
        None => if musical_work_errors(d).len() > 0 {
            r matches Err(BuildError::Fields(es)) && errors_view(es@) == musical_work_errors(d)
        } else {
            r matches Ok(MusicalWork::V1(v)) && musical_work_built(d, v)
        },
    }
}

/// Parses an optional IPI input: `Some(None)` when absent, `Some(Some(v))`
/// when it parses, `None` (with a diagnostic under `field`) otherwise.
fn parse_optional_ipi(raw: &Option<String>, field: &'static str, errors: &mut Vec<FieldError>) -> (r:
    Option<Option<Ipi>>)
    ensures
        appended(
            old(errors)@,
            final(errors)@,
            match opt_text(*raw) {
                Some(t) => parse_errors(field@, "ipi "@, t, ipi_text(t)),
                None => seq![],
            },
        ),
        r == Some::<Option<Ipi>>(None) <==> raw is None,
        r is None <==> (raw matches Some(t) && ipi_text(t@) is Err),
        r matches Some(Some(v)) ==> raw is Some && v@ == ipi_text(raw->0@)->Ok_0,
{
    let ghost before = errors@;
    match raw {
        Some(t) => match parse_ipi(t.as_str()) {
            Ok(v) => {
                assert(errors_view(errors@) =~= errors_view(before) + seq![]);
                Some(Some(v))
            },
            Err(e) => {
                push_parse_error(errors, field, &String::from_str("ipi "), t.as_str(), e);
                None
            },
        },
        None => {
            assert(errors_view(errors@) =~= errors_view(before) + seq![]);
            Some(None)
        },
    }
}

/// Parses an optional ISNI input: `Some(None)` when absent, `Some(Some(v))`
/// when it parses, `None` (with a diagnostic under `field`) otherwise.
fn parse_optional_isni(raw: &Option<String>, field: &'static str, errors: &mut Vec<FieldError>) -> (r:
    Option<Option<Isni>>)
    ensures
        appended(
            old(errors)@,
            final(errors)@,
            match opt_text(*raw) {
                Some(t) => parse_errors(field@, "isni "@, t, isni_text(t)),
                None => seq![],
            },
        ),
        r == Some::<Option<Isni>>(None) <==> raw is None,
        r is None <==> (raw matches Some(t) && isni_text(t@) is Err),
        r matches Some(Some(v)) ==> raw is Some && v@ == isni_text(raw->0@)->Ok_0,
{
    let ghost before = errors@;
    match raw {
        Some(t) => match parse_isni(t.as_str()) {
            Ok(v) => {
                assert(errors_view(errors@) =~= errors_view(before) + seq![]);
                Some(Some(v))
            },
            Err(e) => {
                push_parse_error(errors, field, &String::from_str("isni "), t.as_str(), e);
                None
            },
        },
        None => {
            assert(errors_view(errors@) =~= errors_view(before) + seq![]);
            Some(None)
        },
    }
}

/// The set of the listed roles.
fn collect_roles(list: &Vec<CreatorRole>) -> (r: CreatorRoles)
    ensures
        r == role_set(list@),
        r.spec_is_empty() <==> list@.len() == 0,
{
    let mut roles = CreatorRoles::new();
    let mut k: usize = 0;
    while k < list.len()
        invariant
            k <= list@.len(),
            forall|role: CreatorRole| roles.has(role) <==> list@.subrange(0, k as int).contains(role),
        decreases list@.len() - k,
    {
        let role = list[k];
        let _ = roles.try_insert(role);
        proof {
            assert forall|x: CreatorRole| roles.has(x) <==> list@.subrange(0, k as int + 1).contains(
                x,
            ) by {
                let pre = list@.subrange(0, k as int);
                let post = list@.subrange(0, k as int + 1);
                assert(post =~= pre.push(role));
                if pre.contains(x) {
                    let j = choose|j: int| 0 <= j < pre.len() && pre[j] == x;
                    assert(post[j] == x);
                }
                if post.contains(x) && x != role {
                    let j = choose|j: int| 0 <= j < post.len() && post[j] == x;
                    assert(pre[j] == x);
                }
                assert(post[k as int] == role);
            }
        }
        k += 1;
    }
    assert(list@.subrange(0, list@.len() as int) =~= list@);
    assert(roles.has(CreatorRole::Author) == list@.contains(CreatorRole::Author));
    assert(roles.has(CreatorRole::Composer) == list@.contains(CreatorRole::Composer));
    assert(roles.has(CreatorRole::Arranger) == list@.contains(CreatorRole::Arranger));
    assert(roles.has(CreatorRole::Adapter) == list@.contains(CreatorRole::Adapter));
    assert(roles.has(CreatorRole::Publisher) == list@.contains(CreatorRole::Publisher));
    proof {
        if list@.len() > 0 {
            assert(roles.has(list@[0]));
        }
    }
    roles
}

/// Builds creator `i` from its input, recording every diagnostic.
fn build_creator(input: &CreatorInput, i: usize, errors: &mut Vec<FieldError>) -> (r: Option<
    Creator,
>)
    ensures
        appended(old(errors)@, final(errors)@, creator_errors(input@, i as nat)),
        r is Some <==> creator_valid(input@),
        r matches Some(c) ==> creator_built(input@, c),
{
    let ghost e0 = errors@;
    let field = creator_field_name(i);
    let ipi = parse_optional_ipi(&input.ipi_raw, field, errors);
    let ghost e1 = errors@;
    let isni = parse_optional_isni(&input.isni_raw, field, errors);
    let ghost e2 = errors@;
    let roles = collect_roles(&input.roles);
    if input.roles.len() == 0 {
        push_error(
            errors,
            field,
            String::from_str("no role supplied — a creator needs at least one role"),
        );
    } else {
        assert(errors_view(errors@) =~= errors_view(e2) + seq![]);
    }
    let ghost e3 = errors@;
    let party: Option<PartyId> = match (ipi, isni) {
        (Some(Some(ipi)), Some(Some(isni))) => Some(PartyId::Both { ipi, isni }),
        (Some(Some(ipi)), Some(None)) => Some(PartyId::Ipi(ipi)),
        (Some(None), Some(Some(isni))) => Some(PartyId::Isni(isni)),
        (Some(None), Some(None)) => {
            push_error(
                errors,
                field,
                String::from_str("neither ipi nor isni supplied — a creator needs at least one"),
            );
            None
        },
        _ => {
            assert(errors_view(errors@) =~= errors_view(e3) + seq![]);
            None
        },
    };
    proof {
        if party is Some {
            assert(errors_view(errors@) =~= errors_view(e3) + seq![]);
        }
        assert(errors_view(errors@) =~= errors_view(e0) + creator_errors(input@, i as nat));
    }
    match party {
        Some(p) => if roles.is_empty() {
            None
        } else {
            Some(Creator { roles, party: p })
        },
        None => None,
    }
}

/// Builds every creator input; `None` when the accepted creators exceed
/// the capacity.
fn build_creators(inputs: &Vec<CreatorInput>, errors: &mut Vec<FieldError>) -> (r: Option<
    Creators,
>)
    ensures
        appended(
            old(errors)@,
            final(errors)@,
            creators_errors(inputs@.map_values(|c: CreatorInput| c@)) + count_errors(
                "creators"@,
                "creators "@,
                valid_creators(inputs@.map_values(|c: CreatorInput| c@)).len(),
                32,
            ),
        ),
        r is Some <==> valid_creators(inputs@.map_values(|c: CreatorInput| c@)).len() <= 32,
        r matches Some(cs) ==> ({
            let valid = valid_creators(inputs@.map_values(|c: CreatorInput| c@));
            &&& cs@.len() == valid.len()
            &&& forall|k: int| 0 <= k < valid.len() ==> creator_built(valid[k], #[trigger] cs@[k])
        }),
{
    let ghost ds = inputs@.map_values(|c: CreatorInput| c@);
    let ghost e0 = errors@;
    let mut out: Vec<Creator> = Vec::new();
    let mut i: usize = 0;
    while i < inputs.len()
        invariant
            i <= inputs@.len(),
            ds == inputs@.map_values(|c: CreatorInput| c@),
            appended(e0, errors@, creators_errors(ds.subrange(0, i as int))),
            out@.len() == valid_creators(ds.subrange(0, i as int)).len(),
            forall|k: int|
                0 <= k < out@.len() ==> creator_built(
                    valid_creators(ds.subrange(0, i as int))[k],
                    #[trigger] out@[k],
                ),
        decreases inputs@.len() - i,
    {
        let ghost before = errors@;
        let c = build_creator(&inputs[i], i, errors);
        proof {
            let pre = ds.subrange(0, i as int);
            let post = ds.subrange(0, i as int + 1);
            assert(post.drop_last() =~= pre);
            assert(post.last() == inputs@[i as int]@);
            reveal(Seq::filter);
            assert(errors_view(errors@) =~= errors_view(e0) + creators_errors(post));
        }
        match c {
            Some(c) => {
                out.push(c);
            },
            None => {},
        }
        i += 1;
    }
    assert(ds.subrange(0, inputs@.len() as int) =~= ds);
    let ghost e1 = errors@;
    let fits = check_count(errors, "creators", "creators ", out.len(), 32);
    assert(errors_view(errors@) =~= errors_view(e0) + (creators_errors(ds) + count_errors(
        "creators"@,
        "creators "@,
        valid_creators(ds).len(),
        32,
    )));
    if fits {
        match Bounded::try_new(out) {
            Ok(b) => Some(b),
            Err(_) => None,
        }
    } else {
        None
    }
}

/// Resolves sample input `i`, recording a failed parse.
fn resolve_sample(input: &SampleInput, i: usize, errors: &mut Vec<FieldError>) -> (r: Option<
    WorkRef,
>)
    ensures
        appended(old(errors)@, final(errors)@, sample_errors(input@, i as nat)),
        r is Some <==> sample_valid(input@),
        r matches Some(w) ==> sample_built(input@, w),
{
    let ghost before = errors@;
    match input {
        SampleInput::Midds(id) => {
            assert(errors_view(errors@) =~= errors_view(before) + seq![]);
            Some(WorkRef::Midds(*id))
        },
        SampleInput::Iswc(raw) => match parse_iswc(raw.as_str()) {
            Ok(v) => {
                assert(errors_view(errors@) =~= errors_view(before) + seq![]);
                Some(WorkRef::Iswc(v))
            },
            Err(e) => {
                let prefix = index_prefix_string(i);
                push_parse_error(errors, "samples", &prefix, raw.as_str(), e);
                None
            },
        },
    }
}

/// Resolves every sample input; `None` when the accepted references exceed
/// the capacity.
fn build_samples(inputs: &Vec<SampleInput>, errors: &mut Vec<FieldError>) -> (r: Option<
    SampleReferences,
>)
    ensures
        appended(
            old(errors)@,
            final(errors)@,
            samples_errors(inputs@.map_values(|s: SampleInput| s@)) + count_errors(
                "samples"@,
                "samples "@,
                valid_samples(inputs@.map_values(|s: SampleInput| s@)).len(),
                64,
            ),
        ),
        r is Some <==> valid_samples(inputs@.map_values(|s: SampleInput| s@)).len() <= 64,
        r matches Some(ws) ==> ({
            let valid = valid_samples(inputs@.map_values(|s: SampleInput| s@));
            &&& ws@.len() == valid.len()
            &&& forall|k: int| 0 <= k < valid.len() ==> sample_built(valid[k], #[trigger] ws@[k])
        }),
{
    let ghost ds = inputs@.map_values(|s: SampleInput| s@);
    let ghost e0 = errors@;
    let mut out: Vec<WorkRef> = Vec::new();
    let mut i: usize = 0;
    while i < inputs.len()
        invariant
            i <= inputs@.len(),
            ds == inputs@.map_values(|s: SampleInput| s@),
            appended(e0, errors@, samples_errors(ds.subrange(0, i as int))),
            out@.len() == valid_samples(ds.subrange(0, i as int)).len(),
            forall|k: int|
                0 <= k < out@.len() ==> sample_built(
                    valid_samples(ds.subrange(0, i as int))[k],
                    #[trigger] out@[k],
                ),
        decreases inputs@.len() - i,
    {
        let ghost before = errors@;
        proof {
            let pre = ds.subrange(0, i as int);
            let post = ds.subrange(0, i as int + 1);
            assert(post.drop_last() =~= pre);
            assert(post.last() == inputs@[i as int]@);
            reveal(Seq::filter);
        }
        match resolve_sample(&inputs[i], i, errors) {
            Some(w) => {
                out.push(w);
            },
            None => {},
        }
        proof {
            let post = ds.subrange(0, i as int + 1);
            assert(errors_view(errors@) =~= errors_view(e0) + samples_errors(post));
        }
        i += 1;
    }
    assert(ds.subrange(0, inputs@.len() as int) =~= ds);
    let fits = check_count(errors, "samples", "samples ", out.len(), 64);
    assert(errors_view(errors@) =~= errors_view(e0) + (samples_errors(ds) + count_errors(
        "samples"@,
        "samples "@,
        valid_samples(ds).len(),
        64,
    )));
    if fits {
        match Bounded::try_new(out) {
            Ok(b) => Some(b),
            Err(_) => None,
        }
    } else {
        None
    }
}

impl MusicalWorkBuilder {
    /// Empty builder. `iswc`, `title` and at least one creator must be set
    /// before [`build`](Self::build); every other input is optional.
    pub fn new() -> (r: Self)
        ensures
            r@ == (MusicalWorkDraft {
                iswc: None,
                title: None,
                creation_year: None,
                instrumental: false,
                language: None,
                explicit_lyrics: false,
                bpm: None,
                key: None,
                work_type: None,
                samples: seq![],
                creators: seq![],
                offchain_extension: None,
            }),
    {
        let r = MusicalWorkBuilder {
            iswc_raw: None,
            title_raw: None,
            creation_year: None,
            instrumental: false,
            language: None,
            explicit_lyrics: false,
            bpm: None,
            key: None,
            work_type: None,
            samples_raw: Vec::new(),
            creators_raw: Vec::new(),
            offchain_extension_raw: None,
        };
        assert(r@.samples =~= seq![]);
        assert(r@.creators =~= seq![]);
        r
    }

    /// Free-form ISWC input (anything `parse_iswc` accepts).
    pub fn iswc(self, s: &str) -> (r: Self)
        ensures
            r@ == (MusicalWorkDraft { iswc: Some(s@), ..self@ }),
    {
        let mut b = self;
        b.iswc_raw = Some(String::from_str(s));
        b
    }

    /// Title; trimmed of surrounding white space at build time.
    pub fn title(self, s: &str) -> (r: Self)
        ensures
            r@ == (MusicalWorkDraft { title: Some(s@), ..self@ }),
    {
        let mut b = self;
        b.title_raw = Some(String::from_str(s));
        b
    }

    /// Year the work was created.
    pub fn creation_year(self, year: u16) -> (r: Self)
        ensures
            r@ == (MusicalWorkDraft { creation_year: Some(year), ..self@ }),
    {
        let mut b = self;
        b.creation_year = Some(year);
        b
    }

    /// Whether the work has no lyrics.
    pub fn instrumental(self, value: bool) -> (r: Self)
        ensures
            r@ == (MusicalWorkDraft { instrumental: value, ..self@ }),
    {
        let mut b = self;
        b.instrumental = value;
        b
    }

    /// Whether the lyrics are explicit.
    pub fn explicit_lyrics(self, value: bool) -> (r: Self)
        ensures
            r@ == (MusicalWorkDraft { explicit_lyrics: value, ..self@ }),
    {
        let mut b = self;
        b.explicit_lyrics = value;
        b
    }

    /// Language of the lyrics.
    pub fn language(self, language: Language) -> (r: Self)
        ensures
            r@ == (MusicalWorkDraft { language: Some(language), ..self@ }),
    {
        let mut b = self;
        b.language = Some(language);
        b
    }

    /// References a work sampled by this one, by its on-chain MIDDS id.
    pub fn add_sample_midds(self, id: u64) -> (r: Self)
        ensures
            r@ == (MusicalWorkDraft { samples: self@.samples.push(SampleDraft::Midds(id)), ..self@ }),
    {
        let mut b = self;
        b.samples_raw.push(SampleInput::Midds(id));
        assert(b@.samples =~= self@.samples.push(SampleDraft::Midds(id)));
        b
    }

    /// References a work sampled by this one, by free-form ISWC text.
    pub fn add_sample_iswc(self, iswc: &str) -> (r: Self)
        ensures
            r@ == (MusicalWorkDraft {
                samples: self@.samples.push(SampleDraft::Iswc(iswc@)),
                ..self@
            }),
    {
        let mut b = self;
        b.samples_raw.push(SampleInput::Iswc(String::from_str(iswc)));
        assert(b@.samples =~= self@.samples.push(SampleDraft::Iswc(iswc@)));
        b
    }

    /// Tempo in beats per minute.
    pub fn bpm(self, bpm: u16) -> (r: Self)
        ensures
            r@ == (MusicalWorkDraft { bpm: Some(bpm), ..self@ }),
    {
        let mut b = self;
        b.bpm = Some(bpm);
        b
    }

    /// Diatonic key of the work.
    pub fn key(self, key: MusicalKey) -> (r: Self)
        ensures
            r@ == (MusicalWorkDraft { key: Some(key), ..self@ }),
    {
        let mut b = self;
        b.key = Some(key);
        b
    }

    /// Original / derived classification; `Original` when never set.
    pub fn work_type(self, work_type: WorkType) -> (r: Self)
        ensures
            r@ == (MusicalWorkDraft { work_type: Some(work_type), ..self@ }),
    {
        let mut b = self;
        b.work_type = Some(work_type);
        b
    }

    /// Appends a creator with an IPI input and the single `Composer` role.
    pub fn add_creator(self, ipi: &str) -> (r: Self)
        ensures
            r@ == (MusicalWorkDraft {
                creators: self@.creators.push(
                    CreatorDraft { roles: seq![CreatorRole::Composer], ipi: Some(ipi@), isni: None },
                ),
                ..self@
            }),
    {
        self.add_creator_with_role(CreatorRole::Composer, ipi)
    }

    /// Appends a creator with one role and an IPI input.
    pub fn add_creator_with_role(self, role: CreatorRole, ipi: &str) -> (r: Self)
        ensures
            r@ == (MusicalWorkDraft {
                creators: self@.creators.push(
                    CreatorDraft { roles: seq![role], ipi: Some(ipi@), isni: None },
                ),
                ..self@
            }),
    {
        let mut b = self;
        let mut roles: Vec<CreatorRole> = Vec::new();
        roles.push(role);
        b.creators_raw.push(
            CreatorInput { roles, ipi_raw: Some(String::from_str(ipi)), isni_raw: None },
        );
        assert(roles@ =~= seq![role]);
        assert(b@.creators =~= self@.creators.push(
            CreatorDraft { roles: seq![role], ipi: Some(ipi@), isni: None },
        ));
        b
    }

    /// Appends a creator with one role and an ISNI input.
    pub fn add_creator_isni(self, role: CreatorRole, isni: &str) -> (r: Self)
        ensures
            r@ == (MusicalWorkDraft {
                creators: self@.creators.push(
                    CreatorDraft { roles: seq![role], ipi: None, isni: Some(isni@) },
                ),
                ..self@
            }),
    {
        let mut b = self;
        let mut roles: Vec<CreatorRole> = Vec::new();
        roles.push(role);
        b.creators_raw.push(
            CreatorInput { roles, ipi_raw: None, isni_raw: Some(String::from_str(isni)) },
        );
        assert(roles@ =~= seq![role]);
        assert(b@.creators =~= self@.creators.push(
            CreatorDraft { roles: seq![role], ipi: None, isni: Some(isni@) },
        ));
        b
    }

    /// Appends a creator with any roles and either or both identifiers. At
    /// build time the roles must be non-empty and some identifier supplied;
    /// otherwise the creator surfaces as a `creators[i]` diagnostic.
    pub fn add_creator_full(
        self,
        roles: Vec<CreatorRole>,
        ipi: Option<&str>,
        isni: Option<&str>,
    ) -> (r: Self)
        ensures
            r@ == (MusicalWorkDraft {
                creators: self@.creators.push(
                    CreatorDraft {
                        roles: roles@,
                        ipi: match ipi {
                            Some(t) => Some(t@),
                            None => None,
                        },
                        isni: match isni {
                            Some(t) => Some(t@),
                            None => None,
                        },
                    },
                ),
                ..self@
            }),
    {
        let mut b = self;
        let ipi_raw = match ipi {
            Some(t) => Some(String::from_str(t)),
            None => None,
        };
        let isni_raw = match isni {
            Some(t) => Some(String::from_str(t)),
            None => None,
        };
        let ghost d = CreatorDraft {
            roles: roles@,
            ipi: match ipi {
                Some(t) => Some(t@),
                None => None,
            },
            isni: match isni {
                Some(t) => Some(t@),
                None => None,
            },
        };
        b.creators_raw.push(CreatorInput { roles, ipi_raw, isni_raw });
        assert(b@.creators =~= self@.creators.push(d));
        b
    }

    /// Off-chain extension hash (CIDv1 by client convention), bound-checked
    /// at build time.
    pub fn offchain_extension(self, bytes: &str) -> (r: Self)
        ensures
            r@ == (MusicalWorkDraft { offchain_extension: Some(bytes@), ..self@ }),
    {
        let mut b = self;
        b.offchain_extension_raw = Some(String::from_str(bytes));
        b
    }

    /// Validates and finalises into a `MusicalWork::V1`.
    ///
    /// Returns `BuildError::Missing` naming the first unset mandatory input
    /// (`iswc`, `title`, `creators`), otherwise `BuildError::Fields` with
    /// one diagnostic per failing input, otherwise the payload.
    pub fn build(self) -> (r: Result<MusicalWork, BuildError>)
        ensures
            musical_work_build_result(self@, r),
    {
        let ghost d = self@;
        let MusicalWorkBuilder {
            iswc_raw,
            title_raw,
            creation_year,
            instrumental,
            language,
            explicit_lyrics,
            bpm,
            key,
            work_type,
            samples_raw,
            creators_raw,
            offchain_extension_raw,
        } = self;
        let iswc_raw = match iswc_raw {
            Some(s) => s,
            None => return Err(BuildError::Missing("iswc")),
        };
        let title_raw = match title_raw {
            Some(s) => s,
            None => return Err(BuildError::Missing("title")),
        };
        if creators_raw.len() == 0 {
            return Err(BuildError::Missing("creators"));
        }
        let mut errors: Vec<FieldError> = Vec::new();
        let ghost e0 = errors@;
        let iswc = match parse_iswc(iswc_raw.as_str()) {
            Ok(v) => {
                assert(errors_view(errors@) =~= errors_view(e0) + seq![]);
                Some(v)
            },
            Err(e) => {
                push_parse_error(&mut errors, "iswc", &String::new(), iswc_raw.as_str(), e);
                None
            },
        };
        let ghost e1 = errors@;
        let title = bounded_text::<256>(
            title_raw.as_str(),
            "title",
            &String::from_str("title"),
            &mut errors,
        );
        let ghost e2 = errors@;
        let creators = build_creators(&creators_raw, &mut errors);
        let ghost e3 = errors@;
        let samples = build_samples(&samples_raw, &mut errors);
        let ghost e4 = errors@;
        let offchain = offchain_hash(&offchain_extension_raw, &mut errors);
        proof {
            assert(d.creators == creators_raw@.map_values(|c: CreatorInput| c@));
            assert(d.samples == samples_raw@.map_values(|s: SampleInput| s@));
            assert(d.iswc->0 == iswc_raw@);
            assert(d.title->0 == title_raw@);
            assert(errors_view(e0) =~= seq![]);
            assert(errors_view(e1) =~= parse_errors("iswc"@, seq![], iswc_raw@, iswc_text(iswc_raw@)));
            assert(errors_view(errors@) =~= musical_work_errors(d));
        }
        if errors.len() > 0 {
            return Err(BuildError::Fields(errors));
        }
        match (iswc, title, creators, samples, offchain) {
            (Some(iswc), Some(title), Some(creators), Some(samples), Some(offchain_extension)) => {
                let work_type = match work_type {
                    Some(w) => w,
                    None => WorkType::Original,
                };
                Ok(
                    MusicalWork::V1(
                        MusicalWorkV1 {
                            iswc,
                            title,
                            creation_year,
                            instrumental,
                            language,
                            explicit_lyrics,
                            bpm,
                            key,
                            work_type,
                            samples,
                            creators,
                            classical_info: None,
                            offchain_extension,
                        },
                    ),
                )
            },
            _ => {
                proof {
                    assert(errors_view(errors@).len() == 0);
                }
                Err(BuildError::Fields(errors))
            },
        }
    }
}

/// Every role survives a build: a creator the builder produces holds a role
/// exactly when that role occurs anywhere in the roles list of the creator
/// input it came from (the inputs that yield creators, in order), whatever
/// the order or repetition of the list.
pub proof fn lemma_built_creator_roles(d: MusicalWorkDraft, r: Result<MusicalWork, BuildError>)
    requires
        musical_work_build_result(d, r),
        r is Ok,
    ensures
        r matches Ok(MusicalWork::V1(v)) && forall|k: int, role: CreatorRole|
            0 <= k < v.creators@.len() ==> (#[trigger] v.creators@[k].roles.has(role)
                <==> exists|j: int|
                0 <= j < valid_creators(d.creators)[k].roles.len()
                    && valid_creators(d.creators)[k].roles[j] == role),
{
    let cs = valid_creators(d.creators);
    if let Ok(MusicalWork::V1(v)) = r {
        assert forall|k: int, role: CreatorRole| 0 <= k < v.creators@.len() implies (
        #[trigger] v.creators@[k].roles.has(role) <==> exists|j: int|
            0 <= j < cs[k].roles.len() && cs[k].roles[j] == role) by {
            assert(creator_built(cs[k], v.creators@[k]));
            assert(cs[k].roles.contains(role) <==> exists|j: int|
                0 <= j < cs[k].roles.len() && cs[k].roles[j] == role);
        }
    }
}

/// The work's settings are kept as given: when the build succeeds, the
/// built year, language, bpm, key and flags are the ones set, the work type
/// is the one set (an original when none was), and the title is the set
/// text trimmed.
pub proof fn lemma_built_work_settings(d: MusicalWorkDraft, r: Result<MusicalWork, BuildError>)
    requires
        musical_work_build_result(d, r),
        r is Ok,
    ensures
        r matches Ok(MusicalWork::V1(v)) && {
            &&& v.creation_year == d.creation_year && v.language == d.language
            &&& v.bpm == d.bpm && v.key == d.key
            &&& v.instrumental == d.instrumental && v.explicit_lyrics == d.explicit_lyrics
            &&& (d.work_type matches Some(t) ==> v.work_type == t)
            &&& (d.work_type is None ==> v.work_type == WorkType::Original)
            &&& v.title@ == encode_utf8(trimmed_text(d.title->0))
        },
{
}

} // verus!
