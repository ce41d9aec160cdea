//! ISO 639-1 two-letter language codes as a closed enum.
//!
//! Canonical ISO 639-1 codes are lowercase.
use vstd::prelude::*;

verus! {

/// ISO 639-1 alpha-2 language code; the variant names are the codes.

#[derive(Clone, Copy, PartialEq, Eq, Debug, Structural)]
pub enum Language {
    Aa,
    Ab,
    Ae,
    Af,
    Ak,
    Am,
    An,
    Ar,
    As,
    Av,
    Ay,
    Az,
    Ba,
    Be,
    Bg,
    Bh,
    Bi,
    Bm,
    Bn,
    Bo,
    Br,
    Bs,
    Ca,
    Ce,
    Ch,
    Co,
    Cr,
    Cs,
    Cu,
    Cv,
    Cy,
    Da,
    De,
    Dv,
    Dz,
    Ee,
    El,
    En,
    Eo,
    Es,
    Et,
    Eu,
    Fa,
    Ff,
    Fi,
    Fj,
    Fo,
    Fr,
    Fy,
    Ga,
    Gd,
    Gl,
    Gn,
    Gu,
    Gv,
    Ha,
    He,
    Hi,
    Ho,
    Hr,
    Ht,
    Hu,
    Hy,
    Hz,
    Ia,
    Id,
    Ie,
    Ig,
    Ii,
    Ik,
    Io,
    Is,
    It,
    Iu,
    Ja,
    Jv,
    Ka,
    Kg,
    Ki,
    Kj,
    Kk,
    Kl,
    Km,
    Kn,
    Ko,
    Kr,
    Ks,
    Ku,
    Kv,
    Kw,
    Ky,
    La,
    Lb,
    Lg,
    Li,
    Ln,
    Lo,
    Lt,
    Lu,
    Lv,
    Mg,
    Mh,
    Mi,
    Mk,
    Ml,
    Mn,
    Mr,
    Ms,
    Mt,
    My,
    Na,
    Nb,
    Nd,
    Ne,
    Ng,
    Nl,
    Nn,
    No,
    Nr,
    Nv,
    Ny,
    Oc,
    Oj,
    Om,
    Or,
    Os,
    Pa,
    Pi,
    Pl,
    Ps,
    Pt,
    Qu,
    Rm,
    Rn,
    Ro,
    Ru,
    Rw,
    Sa,
    Sc,
    Sd,
    Se,
    Sg,
    Si,
    Sk,
    Sl,
    Sm,
    Sn,
    So,
    Sq,
    Sr,
    Ss,
    St,
    Su,
    Sv,
    Sw,
    Ta,
    Te,
    Tg,
    Th,
    Ti,
    Tk,
    Tl,
    Tn,
    To,
    Tr,
    Ts,
    Tt,
    Tw,
    Ty,
    Ug,
    Uk,
    Ur,
    Uz,
    Ve,
    Vi,
    Vo,
    Wa,
    Wo,
    Xh,
    Yi,
    Yo,
    Za,
    Zh,
    Zu,
}

/// The two code bytes of each variant.
pub open spec fn language_code(x: Language) -> (u8, u8) {
    match x {
        Language::Aa => (97u8, 97u8),
        Language::Ab => (97u8, 98u8),
        Language::Ae => (97u8, 101u8),
        Language::Af => (97u8, 102u8),
        Language::Ak => (97u8, 107u8),
        Language::Am => (97u8, 109u8),
        Language::An => (97u8, 110u8),
        Language::Ar => (97u8, 114u8),
        Language::As => (97u8, 115u8),
        Language::Av => (97u8, 118u8),
        Language::Ay => (97u8, 121u8),
        Language::Az => (97u8, 122u8),
        Language::Ba => (98u8, 97u8),
        Language::Be => (98u8, 101u8),
        Language::Bg => (98u8, 103u8),
        Language::Bh => (98u8, 104u8),
        Language::Bi => (98u8, 105u8),
        Language::Bm => (98u8, 109u8),
        Language::Bn => (98u8, 110u8),
        Language::Bo => (98u8, 111u8),
        Language::Br => (98u8, 114u8),
        Language::Bs => (98u8, 115u8),
        Language::Ca => (99u8, 97u8),
        Language::Ce => (99u8, 101u8),
        Language::Ch => (99u8, 104u8),
        Language::Co => (99u8, 111u8),
        Language::Cr => (99u8, 114u8),
        Language::Cs => (99u8, 115u8),
        Language::Cu => (99u8, 117u8),
        Language::Cv => (99u8, 118u8),
        Language::Cy => (99u8, 121u8),
        Language::Da => (100u8, 97u8),
        Language::De => (100u8, 101u8),
        Language::Dv => (100u8, 118u8),
        Language::Dz => (100u8, 122u8),
        Language::Ee => (101u8, 101u8),
        Language::El => (101u8, 108u8),
        Language::En => (101u8, 110u8),
        Language::Eo => (101u8, 111u8),
        Language::Es => (101u8, 115u8),
        Language::Et => (101u8, 116u8),
        Language::Eu => (101u8, 117u8),
        Language::Fa => (102u8, 97u8),
        Language::Ff => (102u8, 102u8),
        Language::Fi => (102u8, 105u8),
        Language::Fj => (102u8, 106u8),
        Language::Fo => (102u8, 111u8),
        Language::Fr => (102u8, 114u8),
        Language::Fy => (102u8, 121u8),
        Language::Ga => (103u8, 97u8),
        Language::Gd => (103u8, 100u8),
        Language::Gl => (103u8, 108u8),
        Language::Gn => (103u8, 110u8),
        Language::Gu => (103u8, 117u8),
        Language::Gv => (103u8, 118u8),
        Language::Ha => (104u8, 97u8),
        Language::He => (104u8, 101u8),
        Language::Hi => (104u8, 105u8),
        Language::Ho => (104u8, 111u8),
        Language::Hr => (104u8, 114u8),
        Language::Ht => (104u8, 116u8),
        Language::Hu => (104u8, 117u8),
        Language::Hy => (104u8, 121u8),
        Language::Hz => (104u8, 122u8),
        Language::Ia => (105u8, 97u8),
        Language::Id => (105u8, 100u8),
        Language::Ie => (105u8, 101u8),
        Language::Ig => (105u8, 103u8),
        Language::Ii => (105u8, 105u8),
        Language::Ik => (105u8, 107u8),
        Language::Io => (105u8, 111u8),
        Language::Is => (105u8, 115u8),
        Language::It => (105u8, 116u8),
        Language::Iu => (105u8, 117u8),
        Language::Ja => (106u8, 97u8),
        Language::Jv => (106u8, 118u8),
        Language::Ka => (107u8, 97u8),
        Language::Kg => (107u8, 103u8),
        Language::Ki => (107u8, 105u8),
        Language::Kj => (107u8, 106u8),
        Language::Kk => (107u8, 107u8),
        Language::Kl => (107u8, 108u8),
        Language::Km => (107u8, 109u8),
        Language::Kn => (107u8, 110u8),
        Language::Ko => (107u8, 111u8),
        Language::Kr => (107u8, 114u8),
        Language::Ks => (107u8, 115u8),
        Language::Ku => (107u8, 117u8),
        Language::Kv => (107u8, 118u8),
        Language::Kw => (107u8, 119u8),
        Language::Ky => (107u8, 121u8),
        Language::La => (108u8, 97u8),
        Language::Lb => (108u8, 98u8),
        Language::Lg => (108u8, 103u8),
        Language::Li => (108u8, 105u8),
        Language::Ln => (108u8, 110u8),
        Language::Lo => (108u8, 111u8),
        Language::Lt => (108u8, 116u8),
        Language::Lu => (108u8, 117u8),
        Language::Lv => (108u8, 118u8),
        Language::Mg => (109u8, 103u8),
        Language::Mh => (109u8, 104u8),
        Language::Mi => (109u8, 105u8),
        Language::Mk => (109u8, 107u8),
        Language::Ml => (109u8, 108u8),
        Language::Mn => (109u8, 110u8),
        Language::Mr => (109u8, 114u8),
        Language::Ms => (109u8, 115u8),
        Language::Mt => (109u8, 116u8),
        Language::My => (109u8, 121u8),
        Language::Na => (110u8, 97u8),
        Language::Nb => (110u8, 98u8),
        Language::Nd => (110u8, 100u8),
        Language::Ne => (110u8, 101u8),
        Language::Ng => (110u8, 103u8),
        Language::Nl => (110u8, 108u8),
        Language::Nn => (110u8, 110u8),
        Language::No => (110u8, 111u8),
        Language::Nr => (110u8, 114u8),
        Language::Nv => (110u8, 118u8),
        Language::Ny => (110u8, 121u8),
        Language::Oc => (111u8, 99u8),
        Language::Oj => (111u8, 106u8),
        Language::Om => (111u8, 109u8),
        Language::Or => (111u8, 114u8),
        Language::Os => (111u8, 115u8),
        Language::Pa => (112u8, 97u8),
        Language::Pi => (112u8, 105u8),
        Language::Pl => (112u8, 108u8),
        Language::Ps => (112u8, 115u8),
        Language::Pt => (112u8, 116u8),
        Language::Qu => (113u8, 117u8),
        Language::Rm => (114u8, 109u8),
        Language::Rn => (114u8, 110u8),
        Language::Ro => (114u8, 111u8),
        Language::Ru => (114u8, 117u8),
        Language::Rw => (114u8, 119u8),
        Language::Sa => (115u8, 97u8),
        Language::Sc => (115u8, 99u8),
        Language::Sd => (115u8, 100u8),
        Language::Se => (115u8, 101u8),
        Language::Sg => (115u8, 103u8),
        Language::Si => (115u8, 105u8),
        Language::Sk => (115u8, 107u8),
        Language::Sl => (115u8, 108u8),
        Language::Sm => (115u8, 109u8),
        Language::Sn => (115u8, 110u8),
        Language::So => (115u8, 111u8),
        Language::Sq => (115u8, 113u8),
        Language::Sr => (115u8, 114u8),
        Language::Ss => (115u8, 115u8),
        Language::St => (115u8, 116u8),
        Language::Su => (115u8, 117u8),
        Language::Sv => (115u8, 118u8),
        Language::Sw => (115u8, 119u8),
        Language::Ta => (116u8, 97u8),
        Language::Te => (116u8, 101u8),
        Language::Tg => (116u8, 103u8),
        Language::Th => (116u8, 104u8),
        Language::Ti => (116u8, 105u8),
        Language::Tk => (116u8, 107u8),
        Language::Tl => (116u8, 108u8),
        Language::Tn => (116u8, 110u8),
        Language::To => (116u8, 111u8),
        Language::Tr => (116u8, 114u8),
        Language::Ts => (116u8, 115u8),
        Language::Tt => (116u8, 116u8),
        Language::Tw => (116u8, 119u8),
        Language::Ty => (116u8, 121u8),
        Language::Ug => (117u8, 103u8),
        Language::Uk => (117u8, 107u8),
        Language::Ur => (117u8, 114u8),
        Language::Uz => (117u8, 122u8),
        Language::Ve => (118u8, 101u8),
        Language::Vi => (118u8, 105u8),
        Language::Vo => (118u8, 111u8),
        Language::Wa => (119u8, 97u8),
        Language::Wo => (119u8, 111u8),
        Language::Xh => (120u8, 104u8),
        Language::Yi => (121u8, 105u8),
        Language::Yo => (121u8, 111u8),
        Language::Za => (122u8, 97u8),
        Language::Zh => (122u8, 104u8),
        Language::Zu => (122u8, 117u8),
    }
}

/// The variant a pair of code bytes names, if any (case-sensitive).
pub open spec fn language_of_code(c0: u8, c1: u8) -> Option<Language> {
    match (c0, c1) {
        (97u8, 97u8) => Some(Language::Aa),
        (97u8, 98u8) => Some(Language::Ab),
        (97u8, 101u8) => Some(Language::Ae),
        (97u8, 102u8) => Some(Language::Af),
        (97u8, 107u8) => Some(Language::Ak),
        (97u8, 109u8) => Some(Language::Am),
        (97u8, 110u8) => Some(Language::An),
        (97u8, 114u8) => Some(Language::Ar),
        (97u8, 115u8) => Some(Language::As),
        (97u8, 118u8) => Some(Language::Av),
        (97u8, 121u8) => Some(Language::Ay),
        (97u8, 122u8) => Some(Language::Az),
        (98u8, 97u8) => Some(Language::Ba),
        (98u8, 101u8) => Some(Language::Be),
        (98u8, 103u8) => Some(Language::Bg),
        (98u8, 104u8) => Some(Language::Bh),
        (98u8, 105u8) => Some(Language::Bi),
        (98u8, 109u8) => Some(Language::Bm),
        (98u8, 110u8) => Some(Language::Bn),
        (98u8, 111u8) => Some(Language::Bo),
        (98u8, 114u8) => Some(Language::Br),
        (98u8, 115u8) => Some(Language::Bs),
        (99u8, 97u8) => Some(Language::Ca),
        (99u8, 101u8) => Some(Language::Ce),
        (99u8, 104u8) => Some(Language::Ch),
        (99u8, 111u8) => Some(Language::Co),
        (99u8, 114u8) => Some(Language::Cr),
        (99u8, 115u8) => Some(Language::Cs),
        (99u8, 117u8) => Some(Language::Cu),
        (99u8, 118u8) => Some(Language::Cv),
        (99u8, 121u8) => Some(Language::Cy),
        (100u8, 97u8) => Some(Language::Da),
        (100u8, 101u8) => Some(Language::De),
        (100u8, 118u8) => Some(Language::Dv),
        (100u8, 122u8) => Some(Language::Dz),
        (101u8, 101u8) => Some(Language::Ee),
        (101u8, 108u8) => Some(Language::El),
        (101u8, 110u8) => Some(Language::En),
        (101u8, 111u8) => Some(Language::Eo),
        (101u8, 115u8) => Some(Language::Es),
        (101u8, 116u8) => Some(Language::Et),
        (101u8, 117u8) => Some(Language::Eu),
        (102u8, 97u8) => Some(Language::Fa),
        (102u8, 102u8) => Some(Language::Ff),
        (102u8, 105u8) => Some(Language::Fi),
        (102u8, 106u8) => Some(Language::Fj),
        (102u8, 111u8) => Some(Language::Fo),
        (102u8, 114u8) => Some(Language::Fr),
        (102u8, 121u8) => Some(Language::Fy),
        (103u8, 97u8) => Some(Language::Ga),
        (103u8, 100u8) => Some(Language::Gd),
        (103u8, 108u8) => Some(Language::Gl),
        (103u8, 110u8) => Some(Language::Gn),
        (103u8, 117u8) => Some(Language::Gu),
        (103u8, 118u8) => Some(Language::Gv),
        (104u8, 97u8) => Some(Language::Ha),
        (104u8, 101u8) => Some(Language::He),
        (104u8, 105u8) => Some(Language::Hi),
        (104u8, 111u8) => Some(Language::Ho),
        (104u8, 114u8) => Some(Language::Hr),
        (104u8, 116u8) => Some(Language::Ht),
        (104u8, 117u8) => Some(Language::Hu),
        (104u8, 121u8) => Some(Language::Hy),
        (104u8, 122u8) => Some(Language::Hz),
        (105u8, 97u8) => Some(Language::Ia),
        (105u8, 100u8) => Some(Language::Id),
        (105u8, 101u8) => Some(Language::Ie),
        (105u8, 103u8) => Some(Language::Ig),
        (105u8, 105u8) => Some(Language::Ii),
        (105u8, 107u8) => Some(Language::Ik),
        (105u8, 111u8) => Some(Language::Io),
        (105u8, 115u8) => Some(Language::Is),
        (105u8, 116u8) => Some(Language::It),
        (105u8, 117u8) => Some(Language::Iu),
        (106u8, 97u8) => Some(Language::Ja),
        (106u8, 118u8) => Some(Language::Jv),
        (107u8, 97u8) => Some(Language::Ka),
        (107u8, 103u8) => Some(Language::Kg),
        (107u8, 105u8) => Some(Language::Ki),
        (107u8, 106u8) => Some(Language::Kj),
        (107u8, 107u8) => Some(Language::Kk),
        (107u8, 108u8) => Some(Language::Kl),
        (107u8, 109u8) => Some(Language::Km),
        (107u8, 110u8) => Some(Language::Kn),
        (107u8, 111u8) => Some(Language::Ko),
        (107u8, 114u8) => Some(Language::Kr),
        (107u8, 115u8) => Some(Language::Ks),
        (107u8, 117u8) => Some(Language::Ku),
        (107u8, 118u8) => Some(Language::Kv),
        (107u8, 119u8) => Some(Language::Kw),
        (107u8, 121u8) => Some(Language::Ky),
        (108u8, 97u8) => Some(Language::La),
        (108u8, 98u8) => Some(Language::Lb),
        (108u8, 103u8) => Some(Language::Lg),
        (108u8, 105u8) => Some(Language::Li),
        (108u8, 110u8) => Some(Language::Ln),
        (108u8, 111u8) => Some(Language::Lo),
        (108u8, 116u8) => Some(Language::Lt),
        (108u8, 117u8) => Some(Language::Lu),
        (108u8, 118u8) => Some(Language::Lv),
        (109u8, 103u8) => Some(Language::Mg),
        (109u8, 104u8) => Some(Language::Mh),
        (109u8, 105u8) => Some(Language::Mi),
        (109u8, 107u8) => Some(Language::Mk),
        (109u8, 108u8) => Some(Language::Ml),
        (109u8, 110u8) => Some(Language::Mn),
        (109u8, 114u8) => Some(Language::Mr),
        (109u8, 115u8) => Some(Language::Ms),
        (109u8, 116u8) => Some(Language::Mt),
        (109u8, 121u8) => Some(Language::My),
        (110u8, 97u8) => Some(Language::Na),
        (110u8, 98u8) => Some(Language::Nb),
        (110u8, 100u8) => Some(Language::Nd),
        (110u8, 101u8) => Some(Language::Ne),
        (110u8, 103u8) => Some(Language::Ng),
        (110u8, 108u8) => Some(Language::Nl),
        (110u8, 110u8) => Some(Language::Nn),
        (110u8, 111u8) => Some(Language::No),
        (110u8, 114u8) => Some(Language::Nr),
        (110u8, 118u8) => Some(Language::Nv),
        (110u8, 121u8) => Some(Language::Ny),
        (111u8, 99u8) => Some(Language::Oc),
        (111u8, 106u8) => Some(Language::Oj),
        (111u8, 109u8) => Some(Language::Om),
        (111u8, 114u8) => Some(Language::Or),
        (111u8, 115u8) => Some(Language::Os),
        (112u8, 97u8) => Some(Language::Pa),
        (112u8, 105u8) => Some(Language::Pi),
        (112u8, 108u8) => Some(Language::Pl),
        (112u8, 115u8) => Some(Language::Ps),
        (112u8, 116u8) => Some(Language::Pt),
        (113u8, 117u8) => Some(Language::Qu),
        (114u8, 109u8) => Some(Language::Rm),
        (114u8, 110u8) => Some(Language::Rn),
        (114u8, 111u8) => Some(Language::Ro),
        (114u8, 117u8) => Some(Language::Ru),
        (114u8, 119u8) => Some(Language::Rw),
        (115u8, 97u8) => Some(Language::Sa),
        (115u8, 99u8) => Some(Language::Sc),
        (115u8, 100u8) => Some(Language::Sd),
        (115u8, 101u8) => Some(Language::Se),
        (115u8, 103u8) => Some(Language::Sg),
        (115u8, 105u8) => Some(Language::Si),
        (115u8, 107u8) => Some(Language::Sk),
        (115u8, 108u8) => Some(Language::Sl),
        (115u8, 109u8) => Some(Language::Sm),
        (115u8, 110u8) => Some(Language::Sn),
        (115u8, 111u8) => Some(Language::So),
        (115u8, 113u8) => Some(Language::Sq),
        (115u8, 114u8) => Some(Language::Sr),
        (115u8, 115u8) => Some(Language::Ss),
        (115u8, 116u8) => Some(Language::St),
        (115u8, 117u8) => Some(Language::Su),
        (115u8, 118u8) => Some(Language::Sv),
        (115u8, 119u8) => Some(Language::Sw),
        (116u8, 97u8) => Some(Language::Ta),
        (116u8, 101u8) => Some(Language::Te),
        (116u8, 103u8) => Some(Language::Tg),
        (116u8, 104u8) => Some(Language::Th),
        (116u8, 105u8) => Some(Language::Ti),
        (116u8, 107u8) => Some(Language::Tk),
        (116u8, 108u8) => Some(Language::Tl),
        (116u8, 110u8) => Some(Language::Tn),
        (116u8, 111u8) => Some(Language::To),
        (116u8, 114u8) => Some(Language::Tr),
        (116u8, 115u8) => Some(Language::Ts),
        (116u8, 116u8) => Some(Language::Tt),
        (116u8, 119u8) => Some(Language::Tw),
        (116u8, 121u8) => Some(Language::Ty),
        (117u8, 103u8) => Some(Language::Ug),
        (117u8, 107u8) => Some(Language::Uk),
        (117u8, 114u8) => Some(Language::Ur),
        (117u8, 122u8) => Some(Language::Uz),
        (118u8, 101u8) => Some(Language::Ve),
        (118u8, 105u8) => Some(Language::Vi),
        (118u8, 111u8) => Some(Language::Vo),
        (119u8, 97u8) => Some(Language::Wa),
        (119u8, 111u8) => Some(Language::Wo),
        (120u8, 104u8) => Some(Language::Xh),
        (121u8, 105u8) => Some(Language::Yi),
        (121u8, 111u8) => Some(Language::Yo),
        (122u8, 97u8) => Some(Language::Za),
        (122u8, 104u8) => Some(Language::Zh),
        (122u8, 117u8) => Some(Language::Zu),
        _ => None,
    }
}

/// The variant a code names, if any (case-sensitive, exactly two bytes).
pub open spec fn language_from_code_spec(code: Seq<u8>) -> Option<Language> {
    if code.len() == 2 {
        language_of_code(code[0], code[1])
    } else {
        None
    }
}

/// ASCII case folding towards the canonical case of the code table.
pub open spec fn fold_case(b: u8) -> u8 {
    if 65 <= b <= 90 {
        (b + 32) as u8
    } else {
        b
    }
}

/// Every variant's code names that variant back.
pub proof fn lemma_language_code_roundtrip(x: Language)
    ensures
        language_of_code(language_code(x).0, language_code(x).1) == Some(x),
{
}

/// Distinct variants have distinct codes.
pub proof fn lemma_language_code_injective(x: Language, y: Language)
    ensures
        language_code(x) == language_code(y) ==> x == y,
{
    lemma_language_code_roundtrip(x);
    lemma_language_code_roundtrip(y);
}

/// Each variant's code is its own name in lower case (ISO 639-1):
/// `Language::En` is `en`, `Language::Fr` is `fr`, and so on for every variant.
pub proof fn lemma_language_codes_spell_names()
    ensures
        language_code(Language::Aa) == ('a' as u8, 'a' as u8),
        language_code(Language::Ab) == ('a' as u8, 'b' as u8),
        language_code(Language::Ae) == ('a' as u8, 'e' as u8),
        language_code(Language::Af) == ('a' as u8, 'f' as u8),
        language_code(Language::Ak) == ('a' as u8, 'k' as u8),
        language_code(Language::Am) == ('a' as u8, 'm' as u8),
        language_code(Language::An) == ('a' as u8, 'n' as u8),
        language_code(Language::Ar) == ('a' as u8, 'r' as u8),
        language_code(Language::As) == ('a' as u8, 's' as u8),
        language_code(Language::Av) == ('a' as u8, 'v' as u8),
        language_code(Language::Ay) == ('a' as u8, 'y' as u8),
        language_code(Language::Az) == ('a' as u8, 'z' as u8),
        language_code(Language::Ba) == ('b' as u8, 'a' as u8),
        language_code(Language::Be) == ('b' as u8, 'e' as u8),
        language_code(Language::Bg) == ('b' as u8, 'g' as u8),
        language_code(Language::Bh) == ('b' as u8, 'h' as u8),
        language_code(Language::Bi) == ('b' as u8, 'i' as u8),
        language_code(Language::Bm) == ('b' as u8, 'm' as u8),
        language_code(Language::Bn) == ('b' as u8, 'n' as u8),
        language_code(Language::Bo) == ('b' as u8, 'o' as u8),
        language_code(Language::Br) == ('b' as u8, 'r' as u8),
        language_code(Language::Bs) == ('b' as u8, 's' as u8),
        language_code(Language::Ca) == ('c' as u8, 'a' as u8),
        language_code(Language::Ce) == ('c' as u8, 'e' as u8),
        language_code(Language::Ch) == ('c' as u8, 'h' as u8),
        language_code(Language::Co) == ('c' as u8, 'o' as u8),
        language_code(Language::Cr) == ('c' as u8, 'r' as u8),
        language_code(Language::Cs) == ('c' as u8, 's' as u8),
        language_code(Language::Cu) == ('c' as u8, 'u' as u8),
        language_code(Language::Cv) == ('c' as u8, 'v' as u8),
        language_code(Language::Cy) == ('c' as u8, 'y' as u8),
        language_code(Language::Da) == ('d' as u8, 'a' as u8),
        language_code(Language::De) == ('d' as u8, 'e' as u8),
        language_code(Language::Dv) == ('d' as u8, 'v' as u8),
        language_code(Language::Dz) == ('d' as u8, 'z' as u8),
        language_code(Language::Ee) == ('e' as u8, 'e' as u8),
        language_code(Language::El) == ('e' as u8, 'l' as u8),
        language_code(Language::En) == ('e' as u8, 'n' as u8),
        language_code(Language::Eo) == ('e' as u8, 'o' as u8),
        language_code(Language::Es) == ('e' as u8, 's' as u8),
        language_code(Language::Et) == ('e' as u8, 't' as u8),
        language_code(Language::Eu) == ('e' as u8, 'u' as u8),
        language_code(Language::Fa) == ('f' as u8, 'a' as u8),
        language_code(Language::Ff) == ('f' as u8, 'f' as u8),
        language_code(Language::Fi) == ('f' as u8, 'i' as u8),
        language_code(Language::Fj) == ('f' as u8, 'j' as u8),
        language_code(Language::Fo) == ('f' as u8, 'o' as u8),
        language_code(Language::Fr) == ('f' as u8, 'r' as u8),
        language_code(Language::Fy) == ('f' as u8, 'y' as u8),
        language_code(Language::Ga) == ('g' as u8, 'a' as u8),
        language_code(Language::Gd) == ('g' as u8, 'd' as u8),
        language_code(Language::Gl) == ('g' as u8, 'l' as u8),
        language_code(Language::Gn) == ('g' as u8, 'n' as u8),
        language_code(Language::Gu) == ('g' as u8, 'u' as u8),
        language_code(Language::Gv) == ('g' as u8, 'v' as u8),
        language_code(Language::Ha) == ('h' as u8, 'a' as u8),
        language_code(Language::He) == ('h' as u8, 'e' as u8),
        language_code(Language::Hi) == ('h' as u8, 'i' as u8),
        language_code(Language::Ho) == ('h' as u8, 'o' as u8),
        language_code(Language::Hr) == ('h' as u8, 'r' as u8),
        language_code(Language::Ht) == ('h' as u8, 't' as u8),
        language_code(Language::Hu) == ('h' as u8, 'u' as u8),
        language_code(Language::Hy) == ('h' as u8, 'y' as u8),
        language_code(Language::Hz) == ('h' as u8, 'z' as u8),
        language_code(Language::Ia) == ('i' as u8, 'a' as u8),
        language_code(Language::Id) == ('i' as u8, 'd' as u8),
        language_code(Language::Ie) == ('i' as u8, 'e' as u8),
        language_code(Language::Ig) == ('i' as u8, 'g' as u8),
        language_code(Language::Ii) == ('i' as u8, 'i' as u8),
        language_code(Language::Ik) == ('i' as u8, 'k' as u8),
        language_code(Language::Io) == ('i' as u8, 'o' as u8),
        language_code(Language::Is) == ('i' as u8, 's' as u8),
        language_code(Language::It) == ('i' as u8, 't' as u8),
        language_code(Language::Iu) == ('i' as u8, 'u' as u8),
        language_code(Language::Ja) == ('j' as u8, 'a' as u8),
        language_code(Language::Jv) == ('j' as u8, 'v' as u8),
        language_code(Language::Ka) == ('k' as u8, 'a' as u8),
        language_code(Language::Kg) == ('k' as u8, 'g' as u8),
        language_code(Language::Ki) == ('k' as u8, 'i' as u8),
        language_code(Language::Kj) == ('k' as u8, 'j' as u8),
        language_code(Language::Kk) == ('k' as u8, 'k' as u8),
        language_code(Language::Kl) == ('k' as u8, 'l' as u8),
        language_code(Language::Km) == ('k' as u8, 'm' as u8),
        language_code(Language::Kn) == ('k' as u8, 'n' as u8),
        language_code(Language::Ko) == ('k' as u8, 'o' as u8),
        language_code(Language::Kr) == ('k' as u8, 'r' as u8),
        language_code(Language::Ks) == ('k' as u8, 's' as u8),
        language_code(Language::Ku) == ('k' as u8, 'u' as u8),
        language_code(Language::Kv) == ('k' as u8, 'v' as u8),
        language_code(Language::Kw) == ('k' as u8, 'w' as u8),
        language_code(Language::Ky) == ('k' as u8, 'y' as u8),
        language_code(Language::La) == ('l' as u8, 'a' as u8),
        language_code(Language::Lb) == ('l' as u8, 'b' as u8),
        language_code(Language::Lg) == ('l' as u8, 'g' as u8),
        language_code(Language::Li) == ('l' as u8, 'i' as u8),
        language_code(Language::Ln) == ('l' as u8, 'n' as u8),
        language_code(Language::Lo) == ('l' as u8, 'o' as u8),
        language_code(Language::Lt) == ('l' as u8, 't' as u8),
        language_code(Language::Lu) == ('l' as u8, 'u' as u8),
        language_code(Language::Lv) == ('l' as u8, 'v' as u8),
        language_code(Language::Mg) == ('m' as u8, 'g' as u8),
        language_code(Language::Mh) == ('m' as u8, 'h' as u8),
        language_code(Language::Mi) == ('m' as u8, 'i' as u8),
        language_code(Language::Mk) == ('m' as u8, 'k' as u8),
        language_code(Language::Ml) == ('m' as u8, 'l' as u8),
        language_code(Language::Mn) == ('m' as u8, 'n' as u8),
        language_code(Language::Mr) == ('m' as u8, 'r' as u8),
        language_code(Language::Ms) == ('m' as u8, 's' as u8),
        language_code(Language::Mt) == ('m' as u8, 't' as u8),
        language_code(Language::My) == ('m' as u8, 'y' as u8),
        language_code(Language::Na) == ('n' as u8, 'a' as u8),
        language_code(Language::Nb) == ('n' as u8, 'b' as u8),
        language_code(Language::Nd) == ('n' as u8, 'd' as u8),
        language_code(Language::Ne) == ('n' as u8, 'e' as u8),
        language_code(Language::Ng) == ('n' as u8, 'g' as u8),
        language_code(Language::Nl) == ('n' as u8, 'l' as u8),
        language_code(Language::Nn) == ('n' as u8, 'n' as u8),
        language_code(Language::No) == ('n' as u8, 'o' as u8),
        language_code(Language::Nr) == ('n' as u8, 'r' as u8),
        language_code(Language::Nv) == ('n' as u8, 'v' as u8),
        language_code(Language::Ny) == ('n' as u8, 'y' as u8),
        language_code(Language::Oc) == ('o' as u8, 'c' as u8),
        language_code(Language::Oj) == ('o' as u8, 'j' as u8),
        language_code(Language::Om) == ('o' as u8, 'm' as u8),
        language_code(Language::Or) == ('o' as u8, 'r' as u8),
        language_code(Language::Os) == ('o' as u8, 's' as u8),
        language_code(Language::Pa) == ('p' as u8, 'a' as u8),
        language_code(Language::Pi) == ('p' as u8, 'i' as u8),
        language_code(Language::Pl) == ('p' as u8, 'l' as u8),
        language_code(Language::Ps) == ('p' as u8, 's' as u8),
        language_code(Language::Pt) == ('p' as u8, 't' as u8),
        language_code(Language::Qu) == ('q' as u8, 'u' as u8),
        language_code(Language::Rm) == ('r' as u8, 'm' as u8),
        language_code(Language::Rn) == ('r' as u8, 'n' as u8),
        language_code(Language::Ro) == ('r' as u8, 'o' as u8),
        language_code(Language::Ru) == ('r' as u8, 'u' as u8),
        language_code(Language::Rw) == ('r' as u8, 'w' as u8),
        language_code(Language::Sa) == ('s' as u8, 'a' as u8),
        language_code(Language::Sc) == ('s' as u8, 'c' as u8),
        language_code(Language::Sd) == ('s' as u8, 'd' as u8),
        language_code(Language::Se) == ('s' as u8, 'e' as u8),
        language_code(Language::Sg) == ('s' as u8, 'g' as u8),
        language_code(Language::Si) == ('s' as u8, 'i' as u8),
        language_code(Language::Sk) == ('s' as u8, 'k' as u8),
        language_code(Language::Sl) == ('s' as u8, 'l' as u8),
        language_code(Language::Sm) == ('s' as u8, 'm' as u8),
        language_code(Language::Sn) == ('s' as u8, 'n' as u8),
        language_code(Language::So) == ('s' as u8, 'o' as u8),
        language_code(Language::Sq) == ('s' as u8, 'q' as u8),
        language_code(Language::Sr) == ('s' as u8, 'r' as u8),
        language_code(Language::Ss) == ('s' as u8, 's' as u8),
        language_code(Language::St) == ('s' as u8, 't' as u8),
        language_code(Language::Su) == ('s' as u8, 'u' as u8),
        language_code(Language::Sv) == ('s' as u8, 'v' as u8),
        language_code(Language::Sw) == ('s' as u8, 'w' as u8),
        language_code(Language::Ta) == ('t' as u8, 'a' as u8),
        language_code(Language::Te) == ('t' as u8, 'e' as u8),
        language_code(Language::Tg) == ('t' as u8, 'g' as u8),
        language_code(Language::Th) == ('t' as u8, 'h' as u8),
        language_code(Language::Ti) == ('t' as u8, 'i' as u8),
        language_code(Language::Tk) == ('t' as u8, 'k' as u8),
        language_code(Language::Tl) == ('t' as u8, 'l' as u8),
        language_code(Language::Tn) == ('t' as u8, 'n' as u8),
        language_code(Language::To) == ('t' as u8, 'o' as u8),
        language_code(Language::Tr) == ('t' as u8, 'r' as u8),
        language_code(Language::Ts) == ('t' as u8, 's' as u8),
        language_code(Language::Tt) == ('t' as u8, 't' as u8),
        language_code(Language::Tw) == ('t' as u8, 'w' as u8),
        language_code(Language::Ty) == ('t' as u8, 'y' as u8),
        language_code(Language::Ug) == ('u' as u8, 'g' as u8),
        language_code(Language::Uk) == ('u' as u8, 'k' as u8),
        language_code(Language::Ur) == ('u' as u8, 'r' as u8),
        language_code(Language::Uz) == ('u' as u8, 'z' as u8),
        language_code(Language::Ve) == ('v' as u8, 'e' as u8),
        language_code(Language::Vi) == ('v' as u8, 'i' as u8),
        language_code(Language::Vo) == ('v' as u8, 'o' as u8),
        language_code(Language::Wa) == ('w' as u8, 'a' as u8),
        language_code(Language::Wo) == ('w' as u8, 'o' as u8),
        language_code(Language::Xh) == ('x' as u8, 'h' as u8),
        language_code(Language::Yi) == ('y' as u8, 'i' as u8),
        language_code(Language::Yo) == ('y' as u8, 'o' as u8),
        language_code(Language::Za) == ('z' as u8, 'a' as u8),
        language_code(Language::Zh) == ('z' as u8, 'h' as u8),
        language_code(Language::Zu) == ('z' as u8, 'u' as u8),
{
}

/// Each lower-case variant name read as a code gives that variant back:
/// `en` is `Language::En`, `fr` is `Language::Fr`, and so on.
pub proof fn lemma_language_names_read_back()
    ensures
        language_of_code('a' as u8, 'a' as u8) == Some(Language::Aa),
        language_of_code('a' as u8, 'b' as u8) == Some(Language::Ab),
        language_of_code('a' as u8, 'e' as u8) == Some(Language::Ae),
        language_of_code('a' as u8, 'f' as u8) == Some(Language::Af),
        language_of_code('a' as u8, 'k' as u8) == Some(Language::Ak),
        language_of_code('a' as u8, 'm' as u8) == Some(Language::Am),
        language_of_code('a' as u8, 'n' as u8) == Some(Language::An),
        language_of_code('a' as u8, 'r' as u8) == Some(Language::Ar),
        language_of_code('a' as u8, 's' as u8) == Some(Language::As),
        language_of_code('a' as u8, 'v' as u8) == Some(Language::Av),
        language_of_code('a' as u8, 'y' as u8) == Some(Language::Ay),
        language_of_code('a' as u8, 'z' as u8) == Some(Language::Az),
        language_of_code('b' as u8, 'a' as u8) == Some(Language::Ba),
        language_of_code('b' as u8, 'e' as u8) == Some(Language::Be),
        language_of_code('b' as u8, 'g' as u8) == Some(Language::Bg),
        language_of_code('b' as u8, 'h' as u8) == Some(Language::Bh),
        language_of_code('b' as u8, 'i' as u8) == Some(Language::Bi),
        language_of_code('b' as u8, 'm' as u8) == Some(Language::Bm),
        language_of_code('b' as u8, 'n' as u8) == Some(Language::Bn),
        language_of_code('b' as u8, 'o' as u8) == Some(Language::Bo),
        language_of_code('b' as u8, 'r' as u8) == Some(Language::Br),
        language_of_code('b' as u8, 's' as u8) == Some(Language::Bs),
        language_of_code('c' as u8, 'a' as u8) == Some(Language::Ca),
        language_of_code('c' as u8, 'e' as u8) == Some(Language::Ce),
        language_of_code('c' as u8, 'h' as u8) == Some(Language::Ch),
        language_of_code('c' as u8, 'o' as u8) == Some(Language::Co),
        language_of_code('c' as u8, 'r' as u8) == Some(Language::Cr),
        language_of_code('c' as u8, 's' as u8) == Some(Language::Cs),
        language_of_code('c' as u8, 'u' as u8) == Some(Language::Cu),
        language_of_code('c' as u8, 'v' as u8) == Some(Language::Cv),
        language_of_code('c' as u8, 'y' as u8) == Some(Language::Cy),
        language_of_code('d' as u8, 'a' as u8) == Some(Language::Da),
        language_of_code('d' as u8, 'e' as u8) == Some(Language::De),
        language_of_code('d' as u8, 'v' as u8) == Some(Language::Dv),
        language_of_code('d' as u8, 'z' as u8) == Some(Language::Dz),
        language_of_code('e' as u8, 'e' as u8) == Some(Language::Ee),
        language_of_code('e' as u8, 'l' as u8) == Some(Language::El),
        language_of_code('e' as u8, 'n' as u8) == Some(Language::En),
        language_of_code('e' as u8, 'o' as u8) == Some(Language::Eo),
        language_of_code('e' as u8, 's' as u8) == Some(Language::Es),
        language_of_code('e' as u8, 't' as u8) == Some(Language::Et),
        language_of_code('e' as u8, 'u' as u8) == Some(Language::Eu),
        language_of_code('f' as u8, 'a' as u8) == Some(Language::Fa),
        language_of_code('f' as u8, 'f' as u8) == Some(Language::Ff),
        language_of_code('f' as u8, 'i' as u8) == Some(Language::Fi),
        language_of_code('f' as u8, 'j' as u8) == Some(Language::Fj),
        language_of_code('f' as u8, 'o' as u8) == Some(Language::Fo),
        language_of_code('f' as u8, 'r' as u8) == Some(Language::Fr),
        language_of_code('f' as u8, 'y' as u8) == Some(Language::Fy),
        language_of_code('g' as u8, 'a' as u8) == Some(Language::Ga),
        language_of_code('g' as u8, 'd' as u8) == Some(Language::Gd),
        language_of_code('g' as u8, 'l' as u8) == Some(Language::Gl),
        language_of_code('g' as u8, 'n' as u8) == Some(Language::Gn),
        language_of_code('g' as u8, 'u' as u8) == Some(Language::Gu),
        language_of_code('g' as u8, 'v' as u8) == Some(Language::Gv),
        language_of_code('h' as u8, 'a' as u8) == Some(Language::Ha),
        language_of_code('h' as u8, 'e' as u8) == Some(Language::He),
        language_of_code('h' as u8, 'i' as u8) == Some(Language::Hi),
        language_of_code('h' as u8, 'o' as u8) == Some(Language::Ho),
        language_of_code('h' as u8, 'r' as u8) == Some(Language::Hr),
        language_of_code('h' as u8, 't' as u8) == Some(Language::Ht),
        language_of_code('h' as u8, 'u' as u8) == Some(Language::Hu),
        language_of_code('h' as u8, 'y' as u8) == Some(Language::Hy),
        language_of_code('h' as u8, 'z' as u8) == Some(Language::Hz),
        language_of_code('i' as u8, 'a' as u8) == Some(Language::Ia),
        language_of_code('i' as u8, 'd' as u8) == Some(Language::Id),
        language_of_code('i' as u8, 'e' as u8) == Some(Language::Ie),
        language_of_code('i' as u8, 'g' as u8) == Some(Language::Ig),
        language_of_code('i' as u8, 'i' as u8) == Some(Language::Ii),
        language_of_code('i' as u8, 'k' as u8) == Some(Language::Ik),
        language_of_code('i' as u8, 'o' as u8) == Some(Language::Io),
        language_of_code('i' as u8, 's' as u8) == Some(Language::Is),
        language_of_code('i' as u8, 't' as u8) == Some(Language::It),
        language_of_code('i' as u8, 'u' as u8) == Some(Language::Iu),
        language_of_code('j' as u8, 'a' as u8) == Some(Language::Ja),
        language_of_code('j' as u8, 'v' as u8) == Some(Language::Jv),
        language_of_code('k' as u8, 'a' as u8) == Some(Language::Ka),
        language_of_code('k' as u8, 'g' as u8) == Some(Language::Kg),
        language_of_code('k' as u8, 'i' as u8) == Some(Language::Ki),
        language_of_code('k' as u8, 'j' as u8) == Some(Language::Kj),
        language_of_code('k' as u8, 'k' as u8) == Some(Language::Kk),
        language_of_code('k' as u8, 'l' as u8) == Some(Language::Kl),
        language_of_code('k' as u8, 'm' as u8) == Some(Language::Km),
        language_of_code('k' as u8, 'n' as u8) == Some(Language::Kn),
        language_of_code('k' as u8, 'o' as u8) == Some(Language::Ko),
        language_of_code('k' as u8, 'r' as u8) == Some(Language::Kr),
        language_of_code('k' as u8, 's' as u8) == Some(Language::Ks),
        language_of_code('k' as u8, 'u' as u8) == Some(Language::Ku),
        language_of_code('k' as u8, 'v' as u8) == Some(Language::Kv),
        language_of_code('k' as u8, 'w' as u8) == Some(Language::Kw),
        language_of_code('k' as u8, 'y' as u8) == Some(Language::Ky),
        language_of_code('l' as u8, 'a' as u8) == Some(Language::La),
        language_of_code('l' as u8, 'b' as u8) == Some(Language::Lb),
        language_of_code('l' as u8, 'g' as u8) == Some(Language::Lg),
        language_of_code('l' as u8, 'i' as u8) == Some(Language::Li),
        language_of_code('l' as u8, 'n' as u8) == Some(Language::Ln),
        language_of_code('l' as u8, 'o' as u8) == Some(Language::Lo),
        language_of_code('l' as u8, 't' as u8) == Some(Language::Lt),
        language_of_code('l' as u8, 'u' as u8) == Some(Language::Lu),
        language_of_code('l' as u8, 'v' as u8) == Some(Language::Lv),
        language_of_code('m' as u8, 'g' as u8) == Some(Language::Mg),
        language_of_code('m' as u8, 'h' as u8) == Some(Language::Mh),
        language_of_code('m' as u8, 'i' as u8) == Some(Language::Mi),
        language_of_code('m' as u8, 'k' as u8) == Some(Language::Mk),
        language_of_code('m' as u8, 'l' as u8) == Some(Language::Ml),
        language_of_code('m' as u8, 'n' as u8) == Some(Language::Mn),
        language_of_code('m' as u8, 'r' as u8) == Some(Language::Mr),
        language_of_code('m' as u8, 's' as u8) == Some(Language::Ms),
        language_of_code('m' as u8, 't' as u8) == Some(Language::Mt),
        language_of_code('m' as u8, 'y' as u8) == Some(Language::My),
        language_of_code('n' as u8, 'a' as u8) == Some(Language::Na),
        language_of_code('n' as u8, 'b' as u8) == Some(Language::Nb),
        language_of_code('n' as u8, 'd' as u8) == Some(Language::Nd),
        language_of_code('n' as u8, 'e' as u8) == Some(Language::Ne),
        language_of_code('n' as u8, 'g' as u8) == Some(Language::Ng),
        language_of_code('n' as u8, 'l' as u8) == Some(Language::Nl),
        language_of_code('n' as u8, 'n' as u8) == Some(Language::Nn),
        language_of_code('n' as u8, 'o' as u8) == Some(Language::No),
        language_of_code('n' as u8, 'r' as u8) == Some(Language::Nr),
        language_of_code('n' as u8, 'v' as u8) == Some(Language::Nv),
        language_of_code('n' as u8, 'y' as u8) == Some(Language::Ny),
        language_of_code('o' as u8, 'c' as u8) == Some(Language::Oc),
        language_of_code('o' as u8, 'j' as u8) == Some(Language::Oj),
        language_of_code('o' as u8, 'm' as u8) == Some(Language::Om),
        language_of_code('o' as u8, 'r' as u8) == Some(Language::Or),
        language_of_code('o' as u8, 's' as u8) == Some(Language::Os),
        language_of_code('p' as u8, 'a' as u8) == Some(Language::Pa),
        language_of_code('p' as u8, 'i' as u8) == Some(Language::Pi),
        language_of_code('p' as u8, 'l' as u8) == Some(Language::Pl),
        language_of_code('p' as u8, 's' as u8) == Some(Language::Ps),
        language_of_code('p' as u8, 't' as u8) == Some(Language::Pt),
        language_of_code('q' as u8, 'u' as u8) == Some(Language::Qu),
        language_of_code('r' as u8, 'm' as u8) == Some(Language::Rm),
        language_of_code('r' as u8, 'n' as u8) == Some(Language::Rn),
        language_of_code('r' as u8, 'o' as u8) == Some(Language::Ro),
        language_of_code('r' as u8, 'u' as u8) == Some(Language::Ru),
        language_of_code('r' as u8, 'w' as u8) == Some(Language::Rw),
        language_of_code('s' as u8, 'a' as u8) == Some(Language::Sa),
        language_of_code('s' as u8, 'c' as u8) == Some(Language::Sc),
        language_of_code('s' as u8, 'd' as u8) == Some(Language::Sd),
        language_of_code('s' as u8, 'e' as u8) == Some(Language::Se),
        language_of_code('s' as u8, 'g' as u8) == Some(Language::Sg),
        language_of_code('s' as u8, 'i' as u8) == Some(Language::Si),
        language_of_code('s' as u8, 'k' as u8) == Some(Language::Sk),
        language_of_code('s' as u8, 'l' as u8) == Some(Language::Sl),
        language_of_code('s' as u8, 'm' as u8) == Some(Language::Sm),
        language_of_code('s' as u8, 'n' as u8) == Some(Language::Sn),
        language_of_code('s' as u8, 'o' as u8) == Some(Language::So),
        language_of_code('s' as u8, 'q' as u8) == Some(Language::Sq),
        language_of_code('s' as u8, 'r' as u8) == Some(Language::Sr),
        language_of_code('s' as u8, 's' as u8) == Some(Language::Ss),
        language_of_code('s' as u8, 't' as u8) == Some(Language::St),
        language_of_code('s' as u8, 'u' as u8) == Some(Language::Su),
        language_of_code('s' as u8, 'v' as u8) == Some(Language::Sv),
        language_of_code('s' as u8, 'w' as u8) == Some(Language::Sw),
        language_of_code('t' as u8, 'a' as u8) == Some(Language::Ta),
        language_of_code('t' as u8, 'e' as u8) == Some(Language::Te),
        language_of_code('t' as u8, 'g' as u8) == Some(Language::Tg),
        language_of_code('t' as u8, 'h' as u8) == Some(Language::Th),
        language_of_code('t' as u8, 'i' as u8) == Some(Language::Ti),
        language_of_code('t' as u8, 'k' as u8) == Some(Language::Tk),
        language_of_code('t' as u8, 'l' as u8) == Some(Language::Tl),
        language_of_code('t' as u8, 'n' as u8) == Some(Language::Tn),
        language_of_code('t' as u8, 'o' as u8) == Some(Language::To),
        language_of_code('t' as u8, 'r' as u8) == Some(Language::Tr),
        language_of_code('t' as u8, 's' as u8) == Some(Language::Ts),
        language_of_code('t' as u8, 't' as u8) == Some(Language::Tt),
        language_of_code('t' as u8, 'w' as u8) == Some(Language::Tw),
        language_of_code('t' as u8, 'y' as u8) == Some(Language::Ty),
        language_of_code('u' as u8, 'g' as u8) == Some(Language::Ug),
        language_of_code('u' as u8, 'k' as u8) == Some(Language::Uk),
        language_of_code('u' as u8, 'r' as u8) == Some(Language::Ur),
        language_of_code('u' as u8, 'z' as u8) == Some(Language::Uz),
        language_of_code('v' as u8, 'e' as u8) == Some(Language::Ve),
        language_of_code('v' as u8, 'i' as u8) == Some(Language::Vi),
        language_of_code('v' as u8, 'o' as u8) == Some(Language::Vo),
        language_of_code('w' as u8, 'a' as u8) == Some(Language::Wa),
        language_of_code('w' as u8, 'o' as u8) == Some(Language::Wo),
        language_of_code('x' as u8, 'h' as u8) == Some(Language::Xh),
        language_of_code('y' as u8, 'i' as u8) == Some(Language::Yi),
        language_of_code('y' as u8, 'o' as u8) == Some(Language::Yo),
        language_of_code('z' as u8, 'a' as u8) == Some(Language::Za),
        language_of_code('z' as u8, 'h' as u8) == Some(Language::Zh),
        language_of_code('z' as u8, 'u' as u8) == Some(Language::Zu),
{
}

impl Language {
    /// Canonical two-letter lowercase code.
    pub fn as_code(self) -> (r: [u8; 2])
        ensures
            r@ == seq![language_code(self).0, language_code(self).1],
    {
        match self {
            Language::Aa => [97u8, 97u8],
            Language::Ab => [97u8, 98u8],
            Language::Ae => [97u8, 101u8],
            Language::Af => [97u8, 102u8],
            Language::Ak => [97u8, 107u8],
            Language::Am => [97u8, 109u8],
            Language::An => [97u8, 110u8],
            Language::Ar => [97u8, 114u8],
            Language::As => [97u8, 115u8],
            Language::Av => [97u8, 118u8],
            Language::Ay => [97u8, 121u8],
            Language::Az => [97u8, 122u8],
            Language::Ba => [98u8, 97u8],
            Language::Be => [98u8, 101u8],
            Language::Bg => [98u8, 103u8],
            Language::Bh => [98u8, 104u8],
            Language::Bi => [98u8, 105u8],
            Language::Bm => [98u8, 109u8],
            Language::Bn => [98u8, 110u8],
            Language::Bo => [98u8, 111u8],
            Language::Br => [98u8, 114u8],
            Language::Bs => [98u8, 115u8],
            Language::Ca => [99u8, 97u8],
            Language::Ce => [99u8, 101u8],
            Language::Ch => [99u8, 104u8],
            Language::Co => [99u8, 111u8],
            Language::Cr => [99u8, 114u8],
            Language::Cs => [99u8, 115u8],
            Language::Cu => [99u8, 117u8],
            Language::Cv => [99u8, 118u8],
            Language::Cy => [99u8, 121u8],
            Language::Da => [100u8, 97u8],
            Language::De => [100u8, 101u8],
            Language::Dv => [100u8, 118u8],
            Language::Dz => [100u8, 122u8],
            Language::Ee => [101u8, 101u8],
            Language::El => [101u8, 108u8],
            Language::En => [101u8, 110u8],
            Language::Eo => [101u8, 111u8],
            Language::Es => [101u8, 115u8],
            Language::Et => [101u8, 116u8],
            Language::Eu => [101u8, 117u8],
            Language::Fa => [102u8, 97u8],
            Language::Ff => [102u8, 102u8],
            Language::Fi => [102u8, 105u8],
            Language::Fj => [102u8, 106u8],
            Language::Fo => [102u8, 111u8],
            Language::Fr => [102u8, 114u8],
            Language::Fy => [102u8, 121u8],
            Language::Ga => [103u8, 97u8],
            Language::Gd => [103u8, 100u8],
            Language::Gl => [103u8, 108u8],
            Language::Gn => [103u8, 110u8],
            Language::Gu => [103u8, 117u8],
            Language::Gv => [103u8, 118u8],
            Language::Ha => [104u8, 97u8],
            Language::He => [104u8, 101u8],
            Language::Hi => [104u8, 105u8],
            Language::Ho => [104u8, 111u8],
            Language::Hr => [104u8, 114u8],
            Language::Ht => [104u8, 116u8],
            Language::Hu => [104u8, 117u8],
            Language::Hy => [104u8, 121u8],
            Language::Hz => [104u8, 122u8],
            Language::Ia => [105u8, 97u8],
            Language::Id => [105u8, 100u8],
            Language::Ie => [105u8, 101u8],
            Language::Ig => [105u8, 103u8],
            Language::Ii => [105u8, 105u8],
            Language::Ik => [105u8, 107u8],
            Language::Io => [105u8, 111u8],
            Language::Is => [105u8, 115u8],
            Language::It => [105u8, 116u8],
            Language::Iu => [105u8, 117u8],
            Language::Ja => [106u8, 97u8],
            Language::Jv => [106u8, 118u8],
            Language::Ka => [107u8, 97u8],
            Language::Kg => [107u8, 103u8],
            Language::Ki => [107u8, 105u8],
            Language::Kj => [107u8, 106u8],
            Language::Kk => [107u8, 107u8],
            Language::Kl => [107u8, 108u8],
            Language::Km => [107u8, 109u8],
            Language::Kn => [107u8, 110u8],
            Language::Ko => [107u8, 111u8],
            Language::Kr => [107u8, 114u8],
            Language::Ks => [107u8, 115u8],
            Language::Ku => [107u8, 117u8],
            Language::Kv => [107u8, 118u8],
            Language::Kw => [107u8, 119u8],
            Language::Ky => [107u8, 121u8],
            Language::La => [108u8, 97u8],
            Language::Lb => [108u8, 98u8],
            Language::Lg => [108u8, 103u8],
            Language::Li => [108u8, 105u8],
            Language::Ln => [108u8, 110u8],
            Language::Lo => [108u8, 111u8],
            Language::Lt => [108u8, 116u8],
            Language::Lu => [108u8, 117u8],
            Language::Lv => [108u8, 118u8],
            Language::Mg => [109u8, 103u8],
            Language::Mh => [109u8, 104u8],
            Language::Mi => [109u8, 105u8],
            Language::Mk => [109u8, 107u8],
            Language::Ml => [109u8, 108u8],
            Language::Mn => [109u8, 110u8],
            Language::Mr => [109u8, 114u8],
            Language::Ms => [109u8, 115u8],
            Language::Mt => [109u8, 116u8],
            Language::My => [109u8, 121u8],
            Language::Na => [110u8, 97u8],
            Language::Nb => [110u8, 98u8],
            Language::Nd => [110u8, 100u8],
            Language::Ne => [110u8, 101u8],
            Language::Ng => [110u8, 103u8],
            Language::Nl => [110u8, 108u8],
            Language::Nn => [110u8, 110u8],
            Language::No => [110u8, 111u8],
            Language::Nr => [110u8, 114u8],
            Language::Nv => [110u8, 118u8],
            Language::Ny => [110u8, 121u8],
            Language::Oc => [111u8, 99u8],
            Language::Oj => [111u8, 106u8],
            Language::Om => [111u8, 109u8],
            Language::Or => [111u8, 114u8],
            Language::Os => [111u8, 115u8],
            Language::Pa => [112u8, 97u8],
            Language::Pi => [112u8, 105u8],
            Language::Pl => [112u8, 108u8],
            Language::Ps => [112u8, 115u8],
            Language::Pt => [112u8, 116u8],
            Language::Qu => [113u8, 117u8],
            Language::Rm => [114u8, 109u8],
            Language::Rn => [114u8, 110u8],
            Language::Ro => [114u8, 111u8],
            Language::Ru => [114u8, 117u8],
            Language::Rw => [114u8, 119u8],
            Language::Sa => [115u8, 97u8],
            Language::Sc => [115u8, 99u8],
            Language::Sd => [115u8, 100u8],
            Language::Se => [115u8, 101u8],
            Language::Sg => [115u8, 103u8],
            Language::Si => [115u8, 105u8],
            Language::Sk => [115u8, 107u8],
            Language::Sl => [115u8, 108u8],
            Language::Sm => [115u8, 109u8],
            Language::Sn => [115u8, 110u8],
            Language::So => [115u8, 111u8],
            Language::Sq => [115u8, 113u8],
            Language::Sr => [115u8, 114u8],
            Language::Ss => [115u8, 115u8],
            Language::St => [115u8, 116u8],
            Language::Su => [115u8, 117u8],
            Language::Sv => [115u8, 118u8],
            Language::Sw => [115u8, 119u8],
            Language::Ta => [116u8, 97u8],
            Language::Te => [116u8, 101u8],
            Language::Tg => [116u8, 103u8],
            Language::Th => [116u8, 104u8],
            Language::Ti => [116u8, 105u8],
            Language::Tk => [116u8, 107u8],
            Language::Tl => [116u8, 108u8],
            Language::Tn => [116u8, 110u8],
            Language::To => [116u8, 111u8],
            Language::Tr => [116u8, 114u8],
            Language::Ts => [116u8, 115u8],
            Language::Tt => [116u8, 116u8],
            Language::Tw => [116u8, 119u8],
            Language::Ty => [116u8, 121u8],
            Language::Ug => [117u8, 103u8],
            Language::Uk => [117u8, 107u8],
            Language::Ur => [117u8, 114u8],
            Language::Uz => [117u8, 122u8],
            Language::Ve => [118u8, 101u8],
            Language::Vi => [118u8, 105u8],
            Language::Vo => [118u8, 111u8],
            Language::Wa => [119u8, 97u8],
            Language::Wo => [119u8, 111u8],
            Language::Xh => [120u8, 104u8],
            Language::Yi => [121u8, 105u8],
            Language::Yo => [121u8, 111u8],
            Language::Za => [122u8, 97u8],
            Language::Zh => [122u8, 104u8],
            Language::Zu => [122u8, 117u8],
        }
    }

    /// Parses a two-byte code (case-sensitive: canonical codes are lowercase).
    pub fn from_code(code: &[u8]) -> (r: Option<Language>)
        ensures
            r == language_from_code_spec(code@),
    {
        if code.len() != 2 {
            return None;
        }
        match (code[0], code[1]) {
            (97, 97) => Some(Language::Aa),
            (97, 98) => Some(Language::Ab),
            (97, 101) => Some(Language::Ae),
            (97, 102) => Some(Language::Af),
            (97, 107) => Some(Language::Ak),
            (97, 109) => Some(Language::Am),
            (97, 110) => Some(Language::An),
            (97, 114) => Some(Language::Ar),
            (97, 115) => Some(Language::As),
            (97, 118) => Some(Language::Av),
            (97, 121) => Some(Language::Ay),
            (97, 122) => Some(Language::Az),
            (98, 97) => Some(Language::Ba),
            (98, 101) => Some(Language::Be),
            (98, 103) => Some(Language::Bg),
            (98, 104) => Some(Language::Bh),
            (98, 105) => Some(Language::Bi),
            (98, 109) => Some(Language::Bm),
            (98, 110) => Some(Language::Bn),
            (98, 111) => Some(Language::Bo),
            (98, 114) => Some(Language::Br),
            (98, 115) => Some(Language::Bs),
            (99, 97) => Some(Language::Ca),
            (99, 101) => Some(Language::Ce),
            (99, 104) => Some(Language::Ch),
            (99, 111) => Some(Language::Co),
            (99, 114) => Some(Language::Cr),
            (99, 115) => Some(Language::Cs),
            (99, 117) => Some(Language::Cu),
            (99, 118) => Some(Language::Cv),
            (99, 121) => Some(Language::Cy),
            (100, 97) => Some(Language::Da),
            (100, 101) => Some(Language::De),
            (100, 118) => Some(Language::Dv),
            (100, 122) => Some(Language::Dz),
            (101, 101) => Some(Language::Ee),
            (101, 108) => Some(Language::El),
            (101, 110) => Some(Language::En),
            (101, 111) => Some(Language::Eo),
            (101, 115) => Some(Language::Es),
            (101, 116) => Some(Language::Et),
            (101, 117) => Some(Language::Eu),
            (102, 97) => Some(Language::Fa),
            (102, 102) => Some(Language::Ff),
            (102, 105) => Some(Language::Fi),
            (102, 106) => Some(Language::Fj),
            (102, 111) => Some(Language::Fo),
            (102, 114) => Some(Language::Fr),
            (102, 121) => Some(Language::Fy),
            (103, 97) => Some(Language::Ga),
            (103, 100) => Some(Language::Gd),
            (103, 108) => Some(Language::Gl),
            (103, 110) => Some(Language::Gn),
            (103, 117) => Some(Language::Gu),
            (103, 118) => Some(Language::Gv),
            (104, 97) => Some(Language::Ha),
            (104, 101) => Some(Language::He),
            (104, 105) => Some(Language::Hi),
            (104, 111) => Some(Language::Ho),
            (104, 114) => Some(Language::Hr),
            (104, 116) => Some(Language::Ht),
            (104, 117) => Some(Language::Hu),
            (104, 121) => Some(Language::Hy),
            (104, 122) => Some(Language::Hz),
            (105, 97) => Some(Language::Ia),
            (105, 100) => Some(Language::Id),
            (105, 101) => Some(Language::Ie),
            (105, 103) => Some(Language::Ig),
            (105, 105) => Some(Language::Ii),
            (105, 107) => Some(Language::Ik),
            (105, 111) => Some(Language::Io),
            (105, 115) => Some(Language::Is),
            (105, 116) => Some(Language::It),
            (105, 117) => Some(Language::Iu),
            (106, 97) => Some(Language::Ja),
            (106, 118) => Some(Language::Jv),
            (107, 97) => Some(Language::Ka),
            (107, 103) => Some(Language::Kg),
            (107, 105) => Some(Language::Ki),
            (107, 106) => Some(Language::Kj),
            (107, 107) => Some(Language::Kk),
            (107, 108) => Some(Language::Kl),
            (107, 109) => Some(Language::Km),
            (107, 110) => Some(Language::Kn),
            (107, 111) => Some(Language::Ko),
            (107, 114) => Some(Language::Kr),
            (107, 115) => Some(Language::Ks),
            (107, 117) => Some(Language::Ku),
            (107, 118) => Some(Language::Kv),
            (107, 119) => Some(Language::Kw),
            (107, 121) => Some(Language::Ky),
            (108, 97) => Some(Language::La),
            (108, 98) => Some(Language::Lb),
            (108, 103) => Some(Language::Lg),
            (108, 105) => Some(Language::Li),
            (108, 110) => Some(Language::Ln),
            (108, 111) => Some(Language::Lo),
            (108, 116) => Some(Language::Lt),
            (108, 117) => Some(Language::Lu),
            (108, 118) => Some(Language::Lv),
            (109, 103) => Some(Language::Mg),
            (109, 104) => Some(Language::Mh),
            (109, 105) => Some(Language::Mi),
            (109, 107) => Some(Language::Mk),
            (109, 108) => Some(Language::Ml),
            (109, 110) => Some(Language::Mn),
            (109, 114) => Some(Language::Mr),
            (109, 115) => Some(Language::Ms),
            (109, 116) => Some(Language::Mt),
            (109, 121) => Some(Language::My),
            (110, 97) => Some(Language::Na),
            (110, 98) => Some(Language::Nb),
            (110, 100) => Some(Language::Nd),
            (110, 101) => Some(Language::Ne),
            (110, 103) => Some(Language::Ng),
            (110, 108) => Some(Language::Nl),
            (110, 110) => Some(Language::Nn),
            (110, 111) => Some(Language::No),
            (110, 114) => Some(Language::Nr),
            (110, 118) => Some(Language::Nv),
            (110, 121) => Some(Language::Ny),
            (111, 99) => Some(Language::Oc),
            (111, 106) => Some(Language::Oj),
            (111, 109) => Some(Language::Om),
            (111, 114) => Some(Language::Or),
            (111, 115) => Some(Language::Os),
            (112, 97) => Some(Language::Pa),
            (112, 105) => Some(Language::Pi),
            (112, 108) => Some(Language::Pl),
            (112, 115) => Some(Language::Ps),
            (112, 116) => Some(Language::Pt),
            (113, 117) => Some(Language::Qu),
            (114, 109) => Some(Language::Rm),
            (114, 110) => Some(Language::Rn),
            (114, 111) => Some(Language::Ro),
            (114, 117) => Some(Language::Ru),
            (114, 119) => Some(Language::Rw),
            (115, 97) => Some(Language::Sa),
            (115, 99) => Some(Language::Sc),
            (115, 100) => Some(Language::Sd),
            (115, 101) => Some(Language::Se),
            (115, 103) => Some(Language::Sg),
            (115, 105) => Some(Language::Si),
            (115, 107) => Some(Language::Sk),
            (115, 108) => Some(Language::Sl),
            (115, 109) => Some(Language::Sm),
            (115, 110) => Some(Language::Sn),
            (115, 111) => Some(Language::So),
            (115, 113) => Some(Language::Sq),
            (115, 114) => Some(Language::Sr),
            (115, 115) => Some(Language::Ss),
            (115, 116) => Some(Language::St),
            (115, 117) => Some(Language::Su),
            (115, 118) => Some(Language::Sv),
            (115, 119) => Some(Language::Sw),
            (116, 97) => Some(Language::Ta),
            (116, 101) => Some(Language::Te),
            (116, 103) => Some(Language::Tg),
            (116, 104) => Some(Language::Th),
            (116, 105) => Some(Language::Ti),
            (116, 107) => Some(Language::Tk),
            (116, 108) => Some(Language::Tl),
            (116, 110) => Some(Language::Tn),
            (116, 111) => Some(Language::To),
            (116, 114) => Some(Language::Tr),
            (116, 115) => Some(Language::Ts),
            (116, 116) => Some(Language::Tt),
            (116, 119) => Some(Language::Tw),
            (116, 121) => Some(Language::Ty),
            (117, 103) => Some(Language::Ug),
            (117, 107) => Some(Language::Uk),
            (117, 114) => Some(Language::Ur),
            (117, 122) => Some(Language::Uz),
            (118, 101) => Some(Language::Ve),
            (118, 105) => Some(Language::Vi),
            (118, 111) => Some(Language::Vo),
            (119, 97) => Some(Language::Wa),
            (119, 111) => Some(Language::Wo),
            (120, 104) => Some(Language::Xh),
            (121, 105) => Some(Language::Yi),
            (121, 111) => Some(Language::Yo),
            (122, 97) => Some(Language::Za),
            (122, 104) => Some(Language::Zh),
            (122, 117) => Some(Language::Zu),
            _ => None,
        }
    }

    /// Parses a two-byte code, accepting any ASCII case.
    pub fn from_code_ignore_ascii_case(code: &[u8]) -> (r: Option<Language>)
        ensures
            code@.len() == 2 ==> r == language_of_code(fold_case(code@[0]), fold_case(code@[1])),
            code@.len() != 2 ==> r is None,
    {
        if code.len() != 2 {
            return None;
        }
        let folded: [u8; 2] = [fold_byte(code[0]), fold_byte(code[1])];
        Self::from_code(folded.as_slice())
    }
}

/// Folds one byte to the canonical case of the code table.
fn fold_byte(b: u8) -> (r: u8)
    ensures
        r == fold_case(b),
{
    if 65 <= b && b <= 90 {
        b + 32
    } else {
        b
    }
}

} // verus!
