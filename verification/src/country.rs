//! ISO 3166-1 alpha-2 two-letter country codes as a closed enum.
//!
//! Canonical ISO 3166-1 alpha-2 codes are uppercase.
use vstd::prelude::*;

verus! {

/// ISO 3166-1 alpha-2 country code; the variant names are the codes.

#[derive(Clone, Copy, PartialEq, Eq, Debug, Structural)]
pub enum Country {
    Ad,
    Ae,
    Af,
    Ag,
    Ai,
    Al,
    Am,
    Ao,
    Aq,
    Ar,
    As,
    At,
    Au,
    Aw,
    Ax,
    Az,
    Ba,
    Bb,
    Bd,
    Be,
    Bf,
    Bg,
    Bh,
    Bi,
    Bj,
    Bl,
    Bm,
    Bn,
    Bo,
    Bq,
    Br,
    Bs,
    Bt,
    Bv,
    Bw,
    By,
    Bz,
    Ca,
    Cc,
    Cd,
    Cf,
    Cg,
    Ch,
    Ci,
    Ck,
    Cl,
    Cm,
    Cn,
    Co,
    Cr,
    Cu,
    Cv,
    Cw,
    Cx,
    Cy,
    Cz,
    De,
    Dj,
    Dk,
    Dm,
    Do,
    Dz,
    Ec,
    Ee,
    Eg,
    Eh,
    Er,
    Es,
    Et,
    Fi,
    Fj,
    Fk,
    Fm,
    Fo,
    Fr,
    Ga,
    Gb,
    Gd,
    Ge,
    Gf,
    Gg,
    Gh,
    Gi,
    Gl,
    Gm,
    Gn,
    Gp,
    Gq,
    Gr,
    Gs,
    Gt,
    Gu,
    Gw,
    Gy,
    Hk,
    Hm,
    Hn,
    Hr,
    Ht,
    Hu,
    Id,
    Ie,
    Il,
    Im,
    In,
    Io,
    Iq,
    Ir,
    Is,
    It,
    Je,
    Jm,
    Jo,
    Jp,
    Ke,
    Kg,
    Kh,
    Ki,
    Km,
    Kn,
    Kp,
    Kr,
    Kw,
    Ky,
    Kz,
    La,
    Lb,
    Lc,
    Li,
    Lk,
    Lr,
    Ls,
    Lt,
    Lu,
    Lv,
    Ly,
    Ma,
    Mc,
    Md,
    Me,
    Mf,
    Mg,
    Mh,
    Mk,
    Ml,
    Mm,
    Mn,
    Mo,
    Mp,
    Mq,
    Mr,
    Ms,
    Mt,
    Mu,
    Mv,
    Mw,
    Mx,
    My,
    Mz,
    Na,
    Nc,
    Ne,
    Nf,
    Ng,
    Ni,
    Nl,
    No,
    Np,
    Nr,
    Nu,
    Nz,
    Om,
    Pa,
    Pe,
    Pf,
    Pg,
    Ph,
    Pk,
    Pl,
    Pm,
    Pn,
    Pr,
    Ps,
    Pt,
    Pw,
    Py,
    Qa,
    Re,
    Ro,
    Rs,
    Ru,
    Rw,
    Sa,
    Sb,
    Sc,
    Sd,
    Se,
    Sg,
    Sh,
    Si,
    Sj,
    Sk,
    Sl,
    Sm,
    Sn,
    So,
    Sr,
    Ss,
    St,
    Sv,
    Sx,
    Sy,
    Sz,
    Tc,
    Td,
    Tf,
    Tg,
    Th,
    Tj,
    Tk,
    Tl,
    Tm,
    Tn,
    To,
    Tr,
    Tt,
    Tv,
    Tw,
    Tz,
    Ua,
    Ug,
    Um,
    Us,
    Uy,
    Uz,
    Va,
    Vc,
    Ve,
    Vg,
    Vi,
    Vn,
    Vu,
    Wf,
    Ws,
    Ye,
    Yt,
    Za,
    Zm,
    Zw,
}

/// The two code bytes of each variant.
pub open spec fn country_code(x: Country) -> (u8, u8) {
    match x {
        Country::Ad => (65u8, 68u8),
        Country::Ae => (65u8, 69u8),
        Country::Af => (65u8, 70u8),
        Country::Ag => (65u8, 71u8),
        Country::Ai => (65u8, 73u8),
        Country::Al => (65u8, 76u8),
        Country::Am => (65u8, 77u8),
        Country::Ao => (65u8, 79u8),
        Country::Aq => (65u8, 81u8),
        Country::Ar => (65u8, 82u8),
        Country::As => (65u8, 83u8),
        Country::At => (65u8, 84u8),
        Country::Au => (65u8, 85u8),
        Country::Aw => (65u8, 87u8),
        Country::Ax => (65u8, 88u8),
        Country::Az => (65u8, 90u8),
        Country::Ba => (66u8, 65u8),
        Country::Bb => (66u8, 66u8),
        Country::Bd => (66u8, 68u8),
        Country::Be => (66u8, 69u8),
        Country::Bf => (66u8, 70u8),
        Country::Bg => (66u8, 71u8),
        Country::Bh => (66u8, 72u8),
        Country::Bi => (66u8, 73u8),
        Country::Bj => (66u8, 74u8),
        Country::Bl => (66u8, 76u8),
        Country::Bm => (66u8, 77u8),
        Country::Bn => (66u8, 78u8),
        Country::Bo => (66u8, 79u8),
        Country::Bq => (66u8, 81u8),
        Country::Br => (66u8, 82u8),
        Country::Bs => (66u8, 83u8),
        Country::Bt => (66u8, 84u8),
        Country::Bv => (66u8, 86u8),
        Country::Bw => (66u8, 87u8),
        Country::By => (66u8, 89u8),
        Country::Bz => (66u8, 90u8),
        Country::Ca => (67u8, 65u8),
        Country::Cc => (67u8, 67u8),
        Country::Cd => (67u8, 68u8),
        Country::Cf => (67u8, 70u8),
        Country::Cg => (67u8, 71u8),
        Country::Ch => (67u8, 72u8),
        Country::Ci => (67u8, 73u8),
        Country::Ck => (67u8, 75u8),
        Country::Cl => (67u8, 76u8),
        Country::Cm => (67u8, 77u8),
        Country::Cn => (67u8, 78u8),
        Country::Co => (67u8, 79u8),
        Country::Cr => (67u8, 82u8),
        Country::Cu => (67u8, 85u8),
        Country::Cv => (67u8, 86u8),
        Country::Cw => (67u8, 87u8),
        Country::Cx => (67u8, 88u8),
        Country::Cy => (67u8, 89u8),
        Country::Cz => (67u8, 90u8),
        Country::De => (68u8, 69u8),
        Country::Dj => (68u8, 74u8),
        Country::Dk => (68u8, 75u8),
        Country::Dm => (68u8, 77u8),
        Country::Do => (68u8, 79u8),
        Country::Dz => (68u8, 90u8),
        Country::Ec => (69u8, 67u8),
        Country::Ee => (69u8, 69u8),
        Country::Eg => (69u8, 71u8),
        Country::Eh => (69u8, 72u8),
        Country::Er => (69u8, 82u8),
        Country::Es => (69u8, 83u8),
        Country::Et => (69u8, 84u8),
        Country::Fi => (70u8, 73u8),
        Country::Fj => (70u8, 74u8),
        Country::Fk => (70u8, 75u8),
        Country::Fm => (70u8, 77u8),
        Country::Fo => (70u8, 79u8),
        Country::Fr => (70u8, 82u8),
        Country::Ga => (71u8, 65u8),
        Country::Gb => (71u8, 66u8),
        Country::Gd => (71u8, 68u8),
        Country::Ge => (71u8, 69u8),
        Country::Gf => (71u8, 70u8),
        Country::Gg => (71u8, 71u8),
        Country::Gh => (71u8, 72u8),
        Country::Gi => (71u8, 73u8),
        Country::Gl => (71u8, 76u8),
        Country::Gm => (71u8, 77u8),
        Country::Gn => (71u8, 78u8),
        Country::Gp => (71u8, 80u8),
        Country::Gq => (71u8, 81u8),
        Country::Gr => (71u8, 82u8),
        Country::Gs => (71u8, 83u8),
        Country::Gt => (71u8, 84u8),
        Country::Gu => (71u8, 85u8),
        Country::Gw => (71u8, 87u8),
        Country::Gy => (71u8, 89u8),
        Country::Hk => (72u8, 75u8),
        Country::Hm => (72u8, 77u8),
        Country::Hn => (72u8, 78u8),
        Country::Hr => (72u8, 82u8),
        Country::Ht => (72u8, 84u8),
        Country::Hu => (72u8, 85u8),
        Country::Id => (73u8, 68u8),
        Country::Ie => (73u8, 69u8),
        Country::Il => (73u8, 76u8),
        Country::Im => (73u8, 77u8),
        Country::In => (73u8, 78u8),
        Country::Io => (73u8, 79u8),
        Country::Iq => (73u8, 81u8),
        Country::Ir => (73u8, 82u8),
        Country::Is => (73u8, 83u8),
        Country::It => (73u8, 84u8),
        Country::Je => (74u8, 69u8),
        Country::Jm => (74u8, 77u8),
        Country::Jo => (74u8, 79u8),
        Country::Jp => (74u8, 80u8),
        Country::Ke => (75u8, 69u8),
        Country::Kg => (75u8, 71u8),
        Country::Kh => (75u8, 72u8),
        Country::Ki => (75u8, 73u8),
        Country::Km => (75u8, 77u8),
        Country::Kn => (75u8, 78u8),
        Country::Kp => (75u8, 80u8),
        Country::Kr => (75u8, 82u8),
        Country::Kw => (75u8, 87u8),
        Country::Ky => (75u8, 89u8),
        Country::Kz => (75u8, 90u8),
        Country::La => (76u8, 65u8),
        Country::Lb => (76u8, 66u8),
        Country::Lc => (76u8, 67u8),
        Country::Li => (76u8, 73u8),
        Country::Lk => (76u8, 75u8),
        Country::Lr => (76u8, 82u8),
        Country::Ls => (76u8, 83u8),
        Country::Lt => (76u8, 84u8),
        Country::Lu => (76u8, 85u8),
        Country::Lv => (76u8, 86u8),
        Country::Ly => (76u8, 89u8),
        Country::Ma => (77u8, 65u8),
        Country::Mc => (77u8, 67u8),
        Country::Md => (77u8, 68u8),
        Country::Me => (77u8, 69u8),
        Country::Mf => (77u8, 70u8),
        Country::Mg => (77u8, 71u8),
        Country::Mh => (77u8, 72u8),
        Country::Mk => (77u8, 75u8),
        Country::Ml => (77u8, 76u8),
        Country::Mm => (77u8, 77u8),
        Country::Mn => (77u8, 78u8),
        Country::Mo => (77u8, 79u8),
        Country::Mp => (77u8, 80u8),
        Country::Mq => (77u8, 81u8),
        Country::Mr => (77u8, 82u8),
        Country::Ms => (77u8, 83u8),
        Country::Mt => (77u8, 84u8),
        Country::Mu => (77u8, 85u8),
        Country::Mv => (77u8, 86u8),
        Country::Mw => (77u8, 87u8),
        Country::Mx => (77u8, 88u8),
        Country::My => (77u8, 89u8),
        Country::Mz => (77u8, 90u8),
        Country::Na => (78u8, 65u8),
        Country::Nc => (78u8, 67u8),
        Country::Ne => (78u8, 69u8),
        Country::Nf => (78u8, 70u8),
        Country::Ng => (78u8, 71u8),
        Country::Ni => (78u8, 73u8),
        Country::Nl => (78u8, 76u8),
        Country::No => (78u8, 79u8),
        Country::Np => (78u8, 80u8),
        Country::Nr => (78u8, 82u8),
        Country::Nu => (78u8, 85u8),
        Country::Nz => (78u8, 90u8),
        Country::Om => (79u8, 77u8),
        Country::Pa => (80u8, 65u8),
        Country::Pe => (80u8, 69u8),
        Country::Pf => (80u8, 70u8),
        Country::Pg => (80u8, 71u8),
        Country::Ph => (80u8, 72u8),
        Country::Pk => (80u8, 75u8),
        Country::Pl => (80u8, 76u8),
        Country::Pm => (80u8, 77u8),
        Country::Pn => (80u8, 78u8),
        Country::Pr => (80u8, 82u8),
        Country::Ps => (80u8, 83u8),
        Country::Pt => (80u8, 84u8),
        Country::Pw => (80u8, 87u8),
        Country::Py => (80u8, 89u8),
        Country::Qa => (81u8, 65u8),
        Country::Re => (82u8, 69u8),
        Country::Ro => (82u8, 79u8),
        Country::Rs => (82u8, 83u8),
        Country::Ru => (82u8, 85u8),
        Country::Rw => (82u8, 87u8),
        Country::Sa => (83u8, 65u8),
        Country::Sb => (83u8, 66u8),
        Country::Sc => (83u8, 67u8),
        Country::Sd => (83u8, 68u8),
        Country::Se => (83u8, 69u8),
        Country::Sg => (83u8, 71u8),
        Country::Sh => (83u8, 72u8),
        Country::Si => (83u8, 73u8),
        Country::Sj => (83u8, 74u8),
        Country::Sk => (83u8, 75u8),
        Country::Sl => (83u8, 76u8),
        Country::Sm => (83u8, 77u8),
        Country::Sn => (83u8, 78u8),
        Country::So => (83u8, 79u8),
        Country::Sr => (83u8, 82u8),
        Country::Ss => (83u8, 83u8),
        Country::St => (83u8, 84u8),
        Country::Sv => (83u8, 86u8),
        Country::Sx => (83u8, 88u8),
        Country::Sy => (83u8, 89u8),
        Country::Sz => (83u8, 90u8),
        Country::Tc => (84u8, 67u8),
        Country::Td => (84u8, 68u8),
        Country::Tf => (84u8, 70u8),
        Country::Tg => (84u8, 71u8),
        Country::Th => (84u8, 72u8),
        Country::Tj => (84u8, 74u8),
        Country::Tk => (84u8, 75u8),
        Country::Tl => (84u8, 76u8),
        Country::Tm => (84u8, 77u8),
        Country::Tn => (84u8, 78u8),
        Country::To => (84u8, 79u8),
        Country::Tr => (84u8, 82u8),
        Country::Tt => (84u8, 84u8),
        Country::Tv => (84u8, 86u8),
        Country::Tw => (84u8, 87u8),
        Country::Tz => (84u8, 90u8),
        Country::Ua => (85u8, 65u8),
        Country::Ug => (85u8, 71u8),
        Country::Um => (85u8, 77u8),
        Country::Us => (85u8, 83u8),
        Country::Uy => (85u8, 89u8),
        Country::Uz => (85u8, 90u8),
        Country::Va => (86u8, 65u8),
        Country::Vc => (86u8, 67u8),
        Country::Ve => (86u8, 69u8),
        Country::Vg => (86u8, 71u8),
        Country::Vi => (86u8, 73u8),
        Country::Vn => (86u8, 78u8),
        Country::Vu => (86u8, 85u8),
        Country::Wf => (87u8, 70u8),
        Country::Ws => (87u8, 83u8),
        Country::Ye => (89u8, 69u8),
        Country::Yt => (89u8, 84u8),
        Country::Za => (90u8, 65u8),
        Country::Zm => (90u8, 77u8),
        Country::Zw => (90u8, 87u8),
    }
}

/// The variant a pair of code bytes names, if any (case-sensitive).
pub open spec fn country_of_code(c0: u8, c1: u8) -> Option<Country> {
    match (c0, c1) {
        (65u8, 68u8) => Some(Country::Ad),
        (65u8, 69u8) => Some(Country::Ae),
        (65u8, 70u8) => Some(Country::Af),
        (65u8, 71u8) => Some(Country::Ag),
        (65u8, 73u8) => Some(Country::Ai),
        (65u8, 76u8) => Some(Country::Al),
        (65u8, 77u8) => Some(Country::Am),
        (65u8, 79u8) => Some(Country::Ao),
        (65u8, 81u8) => Some(Country::Aq),
        (65u8, 82u8) => Some(Country::Ar),
        (65u8, 83u8) => Some(Country::As),
        (65u8, 84u8) => Some(Country::At),
        (65u8, 85u8) => Some(Country::Au),
        (65u8, 87u8) => Some(Country::Aw),
        (65u8, 88u8) => Some(Country::Ax),
        (65u8, 90u8) => Some(Country::Az),
        (66u8, 65u8) => Some(Country::Ba),
        (66u8, 66u8) => Some(Country::Bb),
        (66u8, 68u8) => Some(Country::Bd),
        (66u8, 69u8) => Some(Country::Be),
        (66u8, 70u8) => Some(Country::Bf),
        (66u8, 71u8) => Some(Country::Bg),
        (66u8, 72u8) => Some(Country::Bh),
        (66u8, 73u8) => Some(Country::Bi),
        (66u8, 74u8) => Some(Country::Bj),
        (66u8, 76u8) => Some(Country::Bl),
        (66u8, 77u8) => Some(Country::Bm),
        (66u8, 78u8) => Some(Country::Bn),
        (66u8, 79u8) => Some(Country::Bo),
        (66u8, 81u8) => Some(Country::Bq),
        (66u8, 82u8) => Some(Country::Br),
        (66u8, 83u8) => Some(Country::Bs),
        (66u8, 84u8) => Some(Country::Bt),
        (66u8, 86u8) => Some(Country::Bv),
        (66u8, 87u8) => Some(Country::Bw),
        (66u8, 89u8) => Some(Country::By),
        (66u8, 90u8) => Some(Country::Bz),
        (67u8, 65u8) => Some(Country::Ca),
        (67u8, 67u8) => Some(Country::Cc),
        (67u8, 68u8) => Some(Country::Cd),
        (67u8, 70u8) => Some(Country::Cf),
        (67u8, 71u8) => Some(Country::Cg),
        (67u8, 72u8) => Some(Country::Ch),
        (67u8, 73u8) => Some(Country::Ci),
        (67u8, 75u8) => Some(Country::Ck),
        (67u8, 76u8) => Some(Country::Cl),
        (67u8, 77u8) => Some(Country::Cm),
        (67u8, 78u8) => Some(Country::Cn),
        (67u8, 79u8) => Some(Country::Co),
        (67u8, 82u8) => Some(Country::Cr),
        (67u8, 85u8) => Some(Country::Cu),
        (67u8, 86u8) => Some(Country::Cv),
        (67u8, 87u8) => Some(Country::Cw),
        (67u8, 88u8) => Some(Country::Cx),
        (67u8, 89u8) => Some(Country::Cy),
        (67u8, 90u8) => Some(Country::Cz),
        (68u8, 69u8) => Some(Country::De),
        (68u8, 74u8) => Some(Country::Dj),
        (68u8, 75u8) => Some(Country::Dk),
        (68u8, 77u8) => Some(Country::Dm),
        (68u8, 79u8) => Some(Country::Do),
        (68u8, 90u8) => Some(Country::Dz),
        (69u8, 67u8) => Some(Country::Ec),
        (69u8, 69u8) => Some(Country::Ee),
        (69u8, 71u8) => Some(Country::Eg),
        (69u8, 72u8) => Some(Country::Eh),
        (69u8, 82u8) => Some(Country::Er),
        (69u8, 83u8) => Some(Country::Es),
        (69u8, 84u8) => Some(Country::Et),
        (70u8, 73u8) => Some(Country::Fi),
        (70u8, 74u8) => Some(Country::Fj),
        (70u8, 75u8) => Some(Country::Fk),
        (70u8, 77u8) => Some(Country::Fm),
        (70u8, 79u8) => Some(Country::Fo),
        (70u8, 82u8) => Some(Country::Fr),
        (71u8, 65u8) => Some(Country::Ga),
        (71u8, 66u8) => Some(Country::Gb),
        (71u8, 68u8) => Some(Country::Gd),
        (71u8, 69u8) => Some(Country::Ge),
        (71u8, 70u8) => Some(Country::Gf),
        (71u8, 71u8) => Some(Country::Gg),
        (71u8, 72u8) => Some(Country::Gh),
        (71u8, 73u8) => Some(Country::Gi),
        (71u8, 76u8) => Some(Country::Gl),
        (71u8, 77u8) => Some(Country::Gm),
        (71u8, 78u8) => Some(Country::Gn),
        (71u8, 80u8) => Some(Country::Gp),
        (71u8, 81u8) => Some(Country::Gq),
        (71u8, 82u8) => Some(Country::Gr),
        (71u8, 83u8) => Some(Country::Gs),
        (71u8, 84u8) => Some(Country::Gt),
        (71u8, 85u8) => Some(Country::Gu),
        (71u8, 87u8) => Some(Country::Gw),
        (71u8, 89u8) => Some(Country::Gy),
        (72u8, 75u8) => Some(Country::Hk),
        (72u8, 77u8) => Some(Country::Hm),
        (72u8, 78u8) => Some(Country::Hn),
        (72u8, 82u8) => Some(Country::Hr),
        (72u8, 84u8) => Some(Country::Ht),
        (72u8, 85u8) => Some(Country::Hu),
        (73u8, 68u8) => Some(Country::Id),
        (73u8, 69u8) => Some(Country::Ie),
        (73u8, 76u8) => Some(Country::Il),
        (73u8, 77u8) => Some(Country::Im),
        (73u8, 78u8) => Some(Country::In),
        (73u8, 79u8) => Some(Country::Io),
        (73u8, 81u8) => Some(Country::Iq),
        (73u8, 82u8) => Some(Country::Ir),
        (73u8, 83u8) => Some(Country::Is),
        (73u8, 84u8) => Some(Country::It),
        (74u8, 69u8) => Some(Country::Je),
        (74u8, 77u8) => Some(Country::Jm),
        (74u8, 79u8) => Some(Country::Jo),
        (74u8, 80u8) => Some(Country::Jp),
        (75u8, 69u8) => Some(Country::Ke),
        (75u8, 71u8) => Some(Country::Kg),
        (75u8, 72u8) => Some(Country::Kh),
        (75u8, 73u8) => Some(Country::Ki),
        (75u8, 77u8) => Some(Country::Km),
        (75u8, 78u8) => Some(Country::Kn),
        (75u8, 80u8) => Some(Country::Kp),
        (75u8, 82u8) => Some(Country::Kr),
        (75u8, 87u8) => Some(Country::Kw),
        (75u8, 89u8) => Some(Country::Ky),
        (75u8, 90u8) => Some(Country::Kz),
        (76u8, 65u8) => Some(Country::La),
        (76u8, 66u8) => Some(Country::Lb),
        (76u8, 67u8) => Some(Country::Lc),
        (76u8, 73u8) => Some(Country::Li),
        (76u8, 75u8) => Some(Country::Lk),
        (76u8, 82u8) => Some(Country::Lr),
        (76u8, 83u8) => Some(Country::Ls),
        (76u8, 84u8) => Some(Country::Lt),
        (76u8, 85u8) => Some(Country::Lu),
        (76u8, 86u8) => Some(Country::Lv),
        (76u8, 89u8) => Some(Country::Ly),
        (77u8, 65u8) => Some(Country::Ma),
        (77u8, 67u8) => Some(Country::Mc),
        (77u8, 68u8) => Some(Country::Md),
        (77u8, 69u8) => Some(Country::Me),
        (77u8, 70u8) => Some(Country::Mf),
        (77u8, 71u8) => Some(Country::Mg),
        (77u8, 72u8) => Some(Country::Mh),
        (77u8, 75u8) => Some(Country::Mk),
        (77u8, 76u8) => Some(Country::Ml),
        (77u8, 77u8) => Some(Country::Mm),
        (77u8, 78u8) => Some(Country::Mn),
        (77u8, 79u8) => Some(Country::Mo),
        (77u8, 80u8) => Some(Country::Mp),
        (77u8, 81u8) => Some(Country::Mq),
        (77u8, 82u8) => Some(Country::Mr),
        (77u8, 83u8) => Some(Country::Ms),
        (77u8, 84u8) => Some(Country::Mt),
        (77u8, 85u8) => Some(Country::Mu),
        (77u8, 86u8) => Some(Country::Mv),
        (77u8, 87u8) => Some(Country::Mw),
        (77u8, 88u8) => Some(Country::Mx),
        (77u8, 89u8) => Some(Country::My),
        (77u8, 90u8) => Some(Country::Mz),
        (78u8, 65u8) => Some(Country::Na),
        (78u8, 67u8) => Some(Country::Nc),
        (78u8, 69u8) => Some(Country::Ne),
        (78u8, 70u8) => Some(Country::Nf),
        (78u8, 71u8) => Some(Country::Ng),
        (78u8, 73u8) => Some(Country::Ni),
        (78u8, 76u8) => Some(Country::Nl),
        (78u8, 79u8) => Some(Country::No),
        (78u8, 80u8) => Some(Country::Np),
        (78u8, 82u8) => Some(Country::Nr),
        (78u8, 85u8) => Some(Country::Nu),
        (78u8, 90u8) => Some(Country::Nz),
        (79u8, 77u8) => Some(Country::Om),
        (80u8, 65u8) => Some(Country::Pa),
        (80u8, 69u8) => Some(Country::Pe),
        (80u8, 70u8) => Some(Country::Pf),
        (80u8, 71u8) => Some(Country::Pg),
        (80u8, 72u8) => Some(Country::Ph),
        (80u8, 75u8) => Some(Country::Pk),
        (80u8, 76u8) => Some(Country::Pl),
        (80u8, 77u8) => Some(Country::Pm),
        (80u8, 78u8) => Some(Country::Pn),
        (80u8, 82u8) => Some(Country::Pr),
        (80u8, 83u8) => Some(Country::Ps),
        (80u8, 84u8) => Some(Country::Pt),
        (80u8, 87u8) => Some(Country::Pw),
        (80u8, 89u8) => Some(Country::Py),
        (81u8, 65u8) => Some(Country::Qa),
        (82u8, 69u8) => Some(Country::Re),
        (82u8, 79u8) => Some(Country::Ro),
        (82u8, 83u8) => Some(Country::Rs),
        (82u8, 85u8) => Some(Country::Ru),
        (82u8, 87u8) => Some(Country::Rw),
        (83u8, 65u8) => Some(Country::Sa),
        (83u8, 66u8) => Some(Country::Sb),
        (83u8, 67u8) => Some(Country::Sc),
        (83u8, 68u8) => Some(Country::Sd),
        (83u8, 69u8) => Some(Country::Se),
        (83u8, 71u8) => Some(Country::Sg),
        (83u8, 72u8) => Some(Country::Sh),
        (83u8, 73u8) => Some(Country::Si),
        (83u8, 74u8) => Some(Country::Sj),
        (83u8, 75u8) => Some(Country::Sk),
        (83u8, 76u8) => Some(Country::Sl),
        (83u8, 77u8) => Some(Country::Sm),
        (83u8, 78u8) => Some(Country::Sn),
        (83u8, 79u8) => Some(Country::So),
        (83u8, 82u8) => Some(Country::Sr),
        (83u8, 83u8) => Some(Country::Ss),
        (83u8, 84u8) => Some(Country::St),
        (83u8, 86u8) => Some(Country::Sv),
        (83u8, 88u8) => Some(Country::Sx),
        (83u8, 89u8) => Some(Country::Sy),
        (83u8, 90u8) => Some(Country::Sz),
        (84u8, 67u8) => Some(Country::Tc),
        (84u8, 68u8) => Some(Country::Td),
        (84u8, 70u8) => Some(Country::Tf),
        (84u8, 71u8) => Some(Country::Tg),
        (84u8, 72u8) => Some(Country::Th),
        (84u8, 74u8) => Some(Country::Tj),
        (84u8, 75u8) => Some(Country::Tk),
        (84u8, 76u8) => Some(Country::Tl),
        (84u8, 77u8) => Some(Country::Tm),
        (84u8, 78u8) => Some(Country::Tn),
        (84u8, 79u8) => Some(Country::To),
        (84u8, 82u8) => Some(Country::Tr),
        (84u8, 84u8) => Some(Country::Tt),
        (84u8, 86u8) => Some(Country::Tv),
        (84u8, 87u8) => Some(Country::Tw),
        (84u8, 90u8) => Some(Country::Tz),
        (85u8, 65u8) => Some(Country::Ua),
        (85u8, 71u8) => Some(Country::Ug),
        (85u8, 77u8) => Some(Country::Um),
        (85u8, 83u8) => Some(Country::Us),
        (85u8, 89u8) => Some(Country::Uy),
        (85u8, 90u8) => Some(Country::Uz),
        (86u8, 65u8) => Some(Country::Va),
        (86u8, 67u8) => Some(Country::Vc),
        (86u8, 69u8) => Some(Country::Ve),
        (86u8, 71u8) => Some(Country::Vg),
        (86u8, 73u8) => Some(Country::Vi),
        (86u8, 78u8) => Some(Country::Vn),
        (86u8, 85u8) => Some(Country::Vu),
        (87u8, 70u8) => Some(Country::Wf),
        (87u8, 83u8) => Some(Country::Ws),
        (89u8, 69u8) => Some(Country::Ye),
        (89u8, 84u8) => Some(Country::Yt),
        (90u8, 65u8) => Some(Country::Za),
        (90u8, 77u8) => Some(Country::Zm),
        (90u8, 87u8) => Some(Country::Zw),
        _ => None,
    }
}

/// The variant a code names, if any (case-sensitive, exactly two bytes).
pub open spec fn country_from_code_spec(code: Seq<u8>) -> Option<Country> {
    if code.len() == 2 {
        country_of_code(code[0], code[1])
    } else {
        None
    }
}

/// ASCII case folding towards the canonical case of the code table.
pub open spec fn fold_case(b: u8) -> u8 {
    if 97 <= b <= 122 {
        (b - 32) as u8
    } else {
        b
    }
}

/// Every variant's code names that variant back.
pub proof fn lemma_country_code_roundtrip(x: Country)
    ensures
        country_of_code(country_code(x).0, country_code(x).1) == Some(x),
{
}

/// Distinct variants have distinct codes.
pub proof fn lemma_country_code_injective(x: Country, y: Country)
    ensures
        country_code(x) == country_code(y) ==> x == y,
{
    lemma_country_code_roundtrip(x);
    lemma_country_code_roundtrip(y);
}

/// Each variant's code is its own name in capitals (ISO 3166-1 alpha-2):
/// `Country::Se` is `SE`, `Country::Ch` is `CH`, and so on for every variant.
pub proof fn lemma_country_codes_spell_names()
    ensures
        country_code(Country::Ad) == ('A' as u8, 'D' as u8),
        country_code(Country::Ae) == ('A' as u8, 'E' as u8),
        country_code(Country::Af) == ('A' as u8, 'F' as u8),
        country_code(Country::Ag) == ('A' as u8, 'G' as u8),
        country_code(Country::Ai) == ('A' as u8, 'I' as u8),
        country_code(Country::Al) == ('A' as u8, 'L' as u8),
        country_code(Country::Am) == ('A' as u8, 'M' as u8),
        country_code(Country::Ao) == ('A' as u8, 'O' as u8),
        country_code(Country::Aq) == ('A' as u8, 'Q' as u8),
        country_code(Country::Ar) == ('A' as u8, 'R' as u8),
        country_code(Country::As) == ('A' as u8, 'S' as u8),
        country_code(Country::At) == ('A' as u8, 'T' as u8),
        country_code(Country::Au) == ('A' as u8, 'U' as u8),
        country_code(Country::Aw) == ('A' as u8, 'W' as u8),
        country_code(Country::Ax) == ('A' as u8, 'X' as u8),
        country_code(Country::Az) == ('A' as u8, 'Z' as u8),
        country_code(Country::Ba) == ('B' as u8, 'A' as u8),
        country_code(Country::Bb) == ('B' as u8, 'B' as u8),
        country_code(Country::Bd) == ('B' as u8, 'D' as u8),
        country_code(Country::Be) == ('B' as u8, 'E' as u8),
        country_code(Country::Bf) == ('B' as u8, 'F' as u8),
        country_code(Country::Bg) == ('B' as u8, 'G' as u8),
        country_code(Country::Bh) == ('B' as u8, 'H' as u8),
        country_code(Country::Bi) == ('B' as u8, 'I' as u8),
        country_code(Country::Bj) == ('B' as u8, 'J' as u8),
        country_code(Country::Bl) == ('B' as u8, 'L' as u8),
        country_code(Country::Bm) == ('B' as u8, 'M' as u8),
        country_code(Country::Bn) == ('B' as u8, 'N' as u8),
        country_code(Country::Bo) == ('B' as u8, 'O' as u8),
        country_code(Country::Bq) == ('B' as u8, 'Q' as u8),
        country_code(Country::Br) == ('B' as u8, 'R' as u8),
        country_code(Country::Bs) == ('B' as u8, 'S' as u8),
        country_code(Country::Bt) == ('B' as u8, 'T' as u8),
        country_code(Country::Bv) == ('B' as u8, 'V' as u8),
        country_code(Country::Bw) == ('B' as u8, 'W' as u8),
        country_code(Country::By) == ('B' as u8, 'Y' as u8),
        country_code(Country::Bz) == ('B' as u8, 'Z' as u8),
        country_code(Country::Ca) == ('C' as u8, 'A' as u8),
        country_code(Country::Cc) == ('C' as u8, 'C' as u8),
        country_code(Country::Cd) == ('C' as u8, 'D' as u8),
        country_code(Country::Cf) == ('C' as u8, 'F' as u8),
        country_code(Country::Cg) == ('C' as u8, 'G' as u8),
        country_code(Country::Ch) == ('C' as u8, 'H' as u8),
        country_code(Country::Ci) == ('C' as u8, 'I' as u8),
        country_code(Country::Ck) == ('C' as u8, 'K' as u8),
        country_code(Country::Cl) == ('C' as u8, 'L' as u8),
        country_code(Country::Cm) == ('C' as u8, 'M' as u8),
        country_code(Country::Cn) == ('C' as u8, 'N' as u8),
        country_code(Country::Co) == ('C' as u8, 'O' as u8),
        country_code(Country::Cr) == ('C' as u8, 'R' as u8),
        country_code(Country::Cu) == ('C' as u8, 'U' as u8),
        country_code(Country::Cv) == ('C' as u8, 'V' as u8),
        country_code(Country::Cw) == ('C' as u8, 'W' as u8),
        country_code(Country::Cx) == ('C' as u8, 'X' as u8),
        country_code(Country::Cy) == ('C' as u8, 'Y' as u8),
        country_code(Country::Cz) == ('C' as u8, 'Z' as u8),
        country_code(Country::De) == ('D' as u8, 'E' as u8),
        country_code(Country::Dj) == ('D' as u8, 'J' as u8),
        country_code(Country::Dk) == ('D' as u8, 'K' as u8),
        country_code(Country::Dm) == ('D' as u8, 'M' as u8),
        country_code(Country::Do) == ('D' as u8, 'O' as u8),
        country_code(Country::Dz) == ('D' as u8, 'Z' as u8),
        country_code(Country::Ec) == ('E' as u8, 'C' as u8),
        country_code(Country::Ee) == ('E' as u8, 'E' as u8),
        country_code(Country::Eg) == ('E' as u8, 'G' as u8),
        country_code(Country::Eh) == ('E' as u8, 'H' as u8),
        country_code(Country::Er) == ('E' as u8, 'R' as u8),
        country_code(Country::Es) == ('E' as u8, 'S' as u8),
        country_code(Country::Et) == ('E' as u8, 'T' as u8),
        country_code(Country::Fi) == ('F' as u8, 'I' as u8),
        country_code(Country::Fj) == ('F' as u8, 'J' as u8),
        country_code(Country::Fk) == ('F' as u8, 'K' as u8),
        country_code(Country::Fm) == ('F' as u8, 'M' as u8),
        country_code(Country::Fo) == ('F' as u8, 'O' as u8),
        country_code(Country::Fr) == ('F' as u8, 'R' as u8),
        country_code(Country::Ga) == ('G' as u8, 'A' as u8),
        country_code(Country::Gb) == ('G' as u8, 'B' as u8),
        country_code(Country::Gd) == ('G' as u8, 'D' as u8),
        country_code(Country::Ge) == ('G' as u8, 'E' as u8),
        country_code(Country::Gf) == ('G' as u8, 'F' as u8),
        country_code(Country::Gg) == ('G' as u8, 'G' as u8),
        country_code(Country::Gh) == ('G' as u8, 'H' as u8),
        country_code(Country::Gi) == ('G' as u8, 'I' as u8),
        country_code(Country::Gl) == ('G' as u8, 'L' as u8),
        country_code(Country::Gm) == ('G' as u8, 'M' as u8),
        country_code(Country::Gn) == ('G' as u8, 'N' as u8),
        country_code(Country::Gp) == ('G' as u8, 'P' as u8),
        country_code(Country::Gq) == ('G' as u8, 'Q' as u8),
        country_code(Country::Gr) == ('G' as u8, 'R' as u8),
        country_code(Country::Gs) == ('G' as u8, 'S' as u8),
        country_code(Country::Gt) == ('G' as u8, 'T' as u8),
        country_code(Country::Gu) == ('G' as u8, 'U' as u8),
        country_code(Country::Gw) == ('G' as u8, 'W' as u8),
        country_code(Country::Gy) == ('G' as u8, 'Y' as u8),
        country_code(Country::Hk) == ('H' as u8, 'K' as u8),
        country_code(Country::Hm) == ('H' as u8, 'M' as u8),
        country_code(Country::Hn) == ('H' as u8, 'N' as u8),
        country_code(Country::Hr) == ('H' as u8, 'R' as u8),
        country_code(Country::Ht) == ('H' as u8, 'T' as u8),
        country_code(Country::Hu) == ('H' as u8, 'U' as u8),
        country_code(Country::Id) == ('I' as u8, 'D' as u8),
        country_code(Country::Ie) == ('I' as u8, 'E' as u8),
        country_code(Country::Il) == ('I' as u8, 'L' as u8),
        country_code(Country::Im) == ('I' as u8, 'M' as u8),
        country_code(Country::In) == ('I' as u8, 'N' as u8),
        country_code(Country::Io) == ('I' as u8, 'O' as u8),
        country_code(Country::Iq) == ('I' as u8, 'Q' as u8),
        country_code(Country::Ir) == ('I' as u8, 'R' as u8),
        country_code(Country::Is) == ('I' as u8, 'S' as u8),
        country_code(Country::It) == ('I' as u8, 'T' as u8),
        country_code(Country::Je) == ('J' as u8, 'E' as u8),
        country_code(Country::Jm) == ('J' as u8, 'M' as u8),
        country_code(Country::Jo) == ('J' as u8, 'O' as u8),
        country_code(Country::Jp) == ('J' as u8, 'P' as u8),
        country_code(Country::Ke) == ('K' as u8, 'E' as u8),
        country_code(Country::Kg) == ('K' as u8, 'G' as u8),
        country_code(Country::Kh) == ('K' as u8, 'H' as u8),
        country_code(Country::Ki) == ('K' as u8, 'I' as u8),
        country_code(Country::Km) == ('K' as u8, 'M' as u8),
        country_code(Country::Kn) == ('K' as u8, 'N' as u8),
        country_code(Country::Kp) == ('K' as u8, 'P' as u8),
        country_code(Country::Kr) == ('K' as u8, 'R' as u8),
        country_code(Country::Kw) == ('K' as u8, 'W' as u8),
        country_code(Country::Ky) == ('K' as u8, 'Y' as u8),
        country_code(Country::Kz) == ('K' as u8, 'Z' as u8),
        country_code(Country::La) == ('L' as u8, 'A' as u8),
        country_code(Country::Lb) == ('L' as u8, 'B' as u8),
        country_code(Country::Lc) == ('L' as u8, 'C' as u8),
        country_code(Country::Li) == ('L' as u8, 'I' as u8),
        country_code(Country::Lk) == ('L' as u8, 'K' as u8),
        country_code(Country::Lr) == ('L' as u8, 'R' as u8),
        country_code(Country::Ls) == ('L' as u8, 'S' as u8),
        country_code(Country::Lt) == ('L' as u8, 'T' as u8),
        country_code(Country::Lu) == ('L' as u8, 'U' as u8),
        country_code(Country::Lv) == ('L' as u8, 'V' as u8),
        country_code(Country::Ly) == ('L' as u8, 'Y' as u8),
        country_code(Country::Ma) == ('M' as u8, 'A' as u8),
        country_code(Country::Mc) == ('M' as u8, 'C' as u8),
        country_code(Country::Md) == ('M' as u8, 'D' as u8),
        country_code(Country::Me) == ('M' as u8, 'E' as u8),
        country_code(Country::Mf) == ('M' as u8, 'F' as u8),
        country_code(Country::Mg) == ('M' as u8, 'G' as u8),
        country_code(Country::Mh) == ('M' as u8, 'H' as u8),
        country_code(Country::Mk) == ('M' as u8, 'K' as u8),
        country_code(Country::Ml) == ('M' as u8, 'L' as u8),
        country_code(Country::Mm) == ('M' as u8, 'M' as u8),
        country_code(Country::Mn) == ('M' as u8, 'N' as u8),
        country_code(Country::Mo) == ('M' as u8, 'O' as u8),
        country_code(Country::Mp) == ('M' as u8, 'P' as u8),
        country_code(Country::Mq) == ('M' as u8, 'Q' as u8),
        country_code(Country::Mr) == ('M' as u8, 'R' as u8),
        country_code(Country::Ms) == ('M' as u8, 'S' as u8),
        country_code(Country::Mt) == ('M' as u8, 'T' as u8),
        country_code(Country::Mu) == ('M' as u8, 'U' as u8),
        country_code(Country::Mv) == ('M' as u8, 'V' as u8),
        country_code(Country::Mw) == ('M' as u8, 'W' as u8),
        country_code(Country::Mx) == ('M' as u8, 'X' as u8),
        country_code(Country::My) == ('M' as u8, 'Y' as u8),
        country_code(Country::Mz) == ('M' as u8, 'Z' as u8),
        country_code(Country::Na) == ('N' as u8, 'A' as u8),
        country_code(Country::Nc) == ('N' as u8, 'C' as u8),
        country_code(Country::Ne) == ('N' as u8, 'E' as u8),
        country_code(Country::Nf) == ('N' as u8, 'F' as u8),
        country_code(Country::Ng) == ('N' as u8, 'G' as u8),
        country_code(Country::Ni) == ('N' as u8, 'I' as u8),
        country_code(Country::Nl) == ('N' as u8, 'L' as u8),
        country_code(Country::No) == ('N' as u8, 'O' as u8),
        country_code(Country::Np) == ('N' as u8, 'P' as u8),
        country_code(Country::Nr) == ('N' as u8, 'R' as u8),
        country_code(Country::Nu) == ('N' as u8, 'U' as u8),
        country_code(Country::Nz) == ('N' as u8, 'Z' as u8),
        country_code(Country::Om) == ('O' as u8, 'M' as u8),
        country_code(Country::Pa) == ('P' as u8, 'A' as u8),
        country_code(Country::Pe) == ('P' as u8, 'E' as u8),
        country_code(Country::Pf) == ('P' as u8, 'F' as u8),
        country_code(Country::Pg) == ('P' as u8, 'G' as u8),
        country_code(Country::Ph) == ('P' as u8, 'H' as u8),
        country_code(Country::Pk) == ('P' as u8, 'K' as u8),
        country_code(Country::Pl) == ('P' as u8, 'L' as u8),
        country_code(Country::Pm) == ('P' as u8, 'M' as u8),
        country_code(Country::Pn) == ('P' as u8, 'N' as u8),
        country_code(Country::Pr) == ('P' as u8, 'R' as u8),
        country_code(Country::Ps) == ('P' as u8, 'S' as u8),
        country_code(Country::Pt) == ('P' as u8, 'T' as u8),
        country_code(Country::Pw) == ('P' as u8, 'W' as u8),
        country_code(Country::Py) == ('P' as u8, 'Y' as u8),
        country_code(Country::Qa) == ('Q' as u8, 'A' as u8),
        country_code(Country::Re) == ('R' as u8, 'E' as u8),
        country_code(Country::Ro) == ('R' as u8, 'O' as u8),
        country_code(Country::Rs) == ('R' as u8, 'S' as u8),
        country_code(Country::Ru) == ('R' as u8, 'U' as u8),
        country_code(Country::Rw) == ('R' as u8, 'W' as u8),
        country_code(Country::Sa) == ('S' as u8, 'A' as u8),
        country_code(Country::Sb) == ('S' as u8, 'B' as u8),
        country_code(Country::Sc) == ('S' as u8, 'C' as u8),
        country_code(Country::Sd) == ('S' as u8, 'D' as u8),
        country_code(Country::Se) == ('S' as u8, 'E' as u8),
        country_code(Country::Sg) == ('S' as u8, 'G' as u8),
        country_code(Country::Sh) == ('S' as u8, 'H' as u8),
        country_code(Country::Si) == ('S' as u8, 'I' as u8),
        country_code(Country::Sj) == ('S' as u8, 'J' as u8),
        country_code(Country::Sk) == ('S' as u8, 'K' as u8),
        country_code(Country::Sl) == ('S' as u8, 'L' as u8),
        country_code(Country::Sm) == ('S' as u8, 'M' as u8),
        country_code(Country::Sn) == ('S' as u8, 'N' as u8),
        country_code(Country::So) == ('S' as u8, 'O' as u8),
        country_code(Country::Sr) == ('S' as u8, 'R' as u8),
        country_code(Country::Ss) == ('S' as u8, 'S' as u8),
        country_code(Country::St) == ('S' as u8, 'T' as u8),
        country_code(Country::Sv) == ('S' as u8, 'V' as u8),
        country_code(Country::Sx) == ('S' as u8, 'X' as u8),
        country_code(Country::Sy) == ('S' as u8, 'Y' as u8),
        country_code(Country::Sz) == ('S' as u8, 'Z' as u8),
        country_code(Country::Tc) == ('T' as u8, 'C' as u8),
        country_code(Country::Td) == ('T' as u8, 'D' as u8),
        country_code(Country::Tf) == ('T' as u8, 'F' as u8),
        country_code(Country::Tg) == ('T' as u8, 'G' as u8),
        country_code(Country::Th) == ('T' as u8, 'H' as u8),
        country_code(Country::Tj) == ('T' as u8, 'J' as u8),
        country_code(Country::Tk) == ('T' as u8, 'K' as u8),
        country_code(Country::Tl) == ('T' as u8, 'L' as u8),
        country_code(Country::Tm) == ('T' as u8, 'M' as u8),
        country_code(Country::Tn) == ('T' as u8, 'N' as u8),
        country_code(Country::To) == ('T' as u8, 'O' as u8),
        country_code(Country::Tr) == ('T' as u8, 'R' as u8),
        country_code(Country::Tt) == ('T' as u8, 'T' as u8),
        country_code(Country::Tv) == ('T' as u8, 'V' as u8),
        country_code(Country::Tw) == ('T' as u8, 'W' as u8),
        country_code(Country::Tz) == ('T' as u8, 'Z' as u8),
        country_code(Country::Ua) == ('U' as u8, 'A' as u8),
        country_code(Country::Ug) == ('U' as u8, 'G' as u8),
        country_code(Country::Um) == ('U' as u8, 'M' as u8),
        country_code(Country::Us) == ('U' as u8, 'S' as u8),
        country_code(Country::Uy) == ('U' as u8, 'Y' as u8),
        country_code(Country::Uz) == ('U' as u8, 'Z' as u8),
        country_code(Country::Va) == ('V' as u8, 'A' as u8),
        country_code(Country::Vc) == ('V' as u8, 'C' as u8),
        country_code(Country::Ve) == ('V' as u8, 'E' as u8),
        country_code(Country::Vg) == ('V' as u8, 'G' as u8),
        country_code(Country::Vi) == ('V' as u8, 'I' as u8),
        country_code(Country::Vn) == ('V' as u8, 'N' as u8),
        country_code(Country::Vu) == ('V' as u8, 'U' as u8),
        country_code(Country::Wf) == ('W' as u8, 'F' as u8),
        country_code(Country::Ws) == ('W' as u8, 'S' as u8),
        country_code(Country::Ye) == ('Y' as u8, 'E' as u8),
        country_code(Country::Yt) == ('Y' as u8, 'T' as u8),
        country_code(Country::Za) == ('Z' as u8, 'A' as u8),
        country_code(Country::Zm) == ('Z' as u8, 'M' as u8),
        country_code(Country::Zw) == ('Z' as u8, 'W' as u8),
{
}

/// Each capitalised variant name read as a code gives that variant back:
/// `SE` is `Country::Se`, `CH` is `Country::Ch`, and so on.
pub proof fn lemma_country_names_read_back()
    ensures
        country_of_code('A' as u8, 'D' as u8) == Some(Country::Ad),
        country_of_code('A' as u8, 'E' as u8) == Some(Country::Ae),
        country_of_code('A' as u8, 'F' as u8) == Some(Country::Af),
        country_of_code('A' as u8, 'G' as u8) == Some(Country::Ag),
        country_of_code('A' as u8, 'I' as u8) == Some(Country::Ai),
        country_of_code('A' as u8, 'L' as u8) == Some(Country::Al),
        country_of_code('A' as u8, 'M' as u8) == Some(Country::Am),
        country_of_code('A' as u8, 'O' as u8) == Some(Country::Ao),
        country_of_code('A' as u8, 'Q' as u8) == Some(Country::Aq),
        country_of_code('A' as u8, 'R' as u8) == Some(Country::Ar),
        country_of_code('A' as u8, 'S' as u8) == Some(Country::As),
        country_of_code('A' as u8, 'T' as u8) == Some(Country::At),
        country_of_code('A' as u8, 'U' as u8) == Some(Country::Au),
        country_of_code('A' as u8, 'W' as u8) == Some(Country::Aw),
        country_of_code('A' as u8, 'X' as u8) == Some(Country::Ax),
        country_of_code('A' as u8, 'Z' as u8) == Some(Country::Az),
        country_of_code('B' as u8, 'A' as u8) == Some(Country::Ba),
        country_of_code('B' as u8, 'B' as u8) == Some(Country::Bb),
        country_of_code('B' as u8, 'D' as u8) == Some(Country::Bd),
        country_of_code('B' as u8, 'E' as u8) == Some(Country::Be),
        country_of_code('B' as u8, 'F' as u8) == Some(Country::Bf),
        country_of_code('B' as u8, 'G' as u8) == Some(Country::Bg),
        country_of_code('B' as u8, 'H' as u8) == Some(Country::Bh),
        country_of_code('B' as u8, 'I' as u8) == Some(Country::Bi),
        country_of_code('B' as u8, 'J' as u8) == Some(Country::Bj),
        country_of_code('B' as u8, 'L' as u8) == Some(Country::Bl),
        country_of_code('B' as u8, 'M' as u8) == Some(Country::Bm),
        country_of_code('B' as u8, 'N' as u8) == Some(Country::Bn),
        country_of_code('B' as u8, 'O' as u8) == Some(Country::Bo),
        country_of_code('B' as u8, 'Q' as u8) == Some(Country::Bq),
        country_of_code('B' as u8, 'R' as u8) == Some(Country::Br),
        country_of_code('B' as u8, 'S' as u8) == Some(Country::Bs),
        country_of_code('B' as u8, 'T' as u8) == Some(Country::Bt),
        country_of_code('B' as u8, 'V' as u8) == Some(Country::Bv),
        country_of_code('B' as u8, 'W' as u8) == Some(Country::Bw),
        country_of_code('B' as u8, 'Y' as u8) == Some(Country::By),
        country_of_code('B' as u8, 'Z' as u8) == Some(Country::Bz),
        country_of_code('C' as u8, 'A' as u8) == Some(Country::Ca),
        country_of_code('C' as u8, 'C' as u8) == Some(Country::Cc),
        country_of_code('C' as u8, 'D' as u8) == Some(Country::Cd),
        country_of_code('C' as u8, 'F' as u8) == Some(Country::Cf),
        country_of_code('C' as u8, 'G' as u8) == Some(Country::Cg),
        country_of_code('C' as u8, 'H' as u8) == Some(Country::Ch),
        country_of_code('C' as u8, 'I' as u8) == Some(Country::Ci),
        country_of_code('C' as u8, 'K' as u8) == Some(Country::Ck),
        country_of_code('C' as u8, 'L' as u8) == Some(Country::Cl),
        country_of_code('C' as u8, 'M' as u8) == Some(Country::Cm),
        country_of_code('C' as u8, 'N' as u8) == Some(Country::Cn),
        country_of_code('C' as u8, 'O' as u8) == Some(Country::Co),
        country_of_code('C' as u8, 'R' as u8) == Some(Country::Cr),
        country_of_code('C' as u8, 'U' as u8) == Some(Country::Cu),
        country_of_code('C' as u8, 'V' as u8) == Some(Country::Cv),
        country_of_code('C' as u8, 'W' as u8) == Some(Country::Cw),
        country_of_code('C' as u8, 'X' as u8) == Some(Country::Cx),
        country_of_code('C' as u8, 'Y' as u8) == Some(Country::Cy),
        country_of_code('C' as u8, 'Z' as u8) == Some(Country::Cz),
        country_of_code('D' as u8, 'E' as u8) == Some(Country::De),
        country_of_code('D' as u8, 'J' as u8) == Some(Country::Dj),
        country_of_code('D' as u8, 'K' as u8) == Some(Country::Dk),
        country_of_code('D' as u8, 'M' as u8) == Some(Country::Dm),
        country_of_code('D' as u8, 'O' as u8) == Some(Country::Do),
        country_of_code('D' as u8, 'Z' as u8) == Some(Country::Dz),
        country_of_code('E' as u8, 'C' as u8) == Some(Country::Ec),
        country_of_code('E' as u8, 'E' as u8) == Some(Country::Ee),
        country_of_code('E' as u8, 'G' as u8) == Some(Country::Eg),
        country_of_code('E' as u8, 'H' as u8) == Some(Country::Eh),
        country_of_code('E' as u8, 'R' as u8) == Some(Country::Er),
        country_of_code('E' as u8, 'S' as u8) == Some(Country::Es),
        country_of_code('E' as u8, 'T' as u8) == Some(Country::Et),
        country_of_code('F' as u8, 'I' as u8) == Some(Country::Fi),
        country_of_code('F' as u8, 'J' as u8) == Some(Country::Fj),
        country_of_code('F' as u8, 'K' as u8) == Some(Country::Fk),
        country_of_code('F' as u8, 'M' as u8) == Some(Country::Fm),
        country_of_code('F' as u8, 'O' as u8) == Some(Country::Fo),
        country_of_code('F' as u8, 'R' as u8) == Some(Country::Fr),
        country_of_code('G' as u8, 'A' as u8) == Some(Country::Ga),
        country_of_code('G' as u8, 'B' as u8) == Some(Country::Gb),
        country_of_code('G' as u8, 'D' as u8) == Some(Country::Gd),
        country_of_code('G' as u8, 'E' as u8) == Some(Country::Ge),
        country_of_code('G' as u8, 'F' as u8) == Some(Country::Gf),
        country_of_code('G' as u8, 'G' as u8) == Some(Country::Gg),
        country_of_code('G' as u8, 'H' as u8) == Some(Country::Gh),
        country_of_code('G' as u8, 'I' as u8) == Some(Country::Gi),
        country_of_code('G' as u8, 'L' as u8) == Some(Country::Gl),
        country_of_code('G' as u8, 'M' as u8) == Some(Country::Gm),
        country_of_code('G' as u8, 'N' as u8) == Some(Country::Gn),
        country_of_code('G' as u8, 'P' as u8) == Some(Country::Gp),
        country_of_code('G' as u8, 'Q' as u8) == Some(Country::Gq),
        country_of_code('G' as u8, 'R' as u8) == Some(Country::Gr),
        country_of_code('G' as u8, 'S' as u8) == Some(Country::Gs),
        country_of_code('G' as u8, 'T' as u8) == Some(Country::Gt),
        country_of_code('G' as u8, 'U' as u8) == Some(Country::Gu),
        country_of_code('G' as u8, 'W' as u8) == Some(Country::Gw),
        country_of_code('G' as u8, 'Y' as u8) == Some(Country::Gy),
        country_of_code('H' as u8, 'K' as u8) == Some(Country::Hk),
        country_of_code('H' as u8, 'M' as u8) == Some(Country::Hm),
        country_of_code('H' as u8, 'N' as u8) == Some(Country::Hn),
        country_of_code('H' as u8, 'R' as u8) == Some(Country::Hr),
        country_of_code('H' as u8, 'T' as u8) == Some(Country::Ht),
        country_of_code('H' as u8, 'U' as u8) == Some(Country::Hu),
        country_of_code('I' as u8, 'D' as u8) == Some(Country::Id),
        country_of_code('I' as u8, 'E' as u8) == Some(Country::Ie),
        country_of_code('I' as u8, 'L' as u8) == Some(Country::Il),
        country_of_code('I' as u8, 'M' as u8) == Some(Country::Im),
        country_of_code('I' as u8, 'N' as u8) == Some(Country::In),
        country_of_code('I' as u8, 'O' as u8) == Some(Country::Io),
        country_of_code('I' as u8, 'Q' as u8) == Some(Country::Iq),
        country_of_code('I' as u8, 'R' as u8) == Some(Country::Ir),
        country_of_code('I' as u8, 'S' as u8) == Some(Country::Is),
        country_of_code('I' as u8, 'T' as u8) == Some(Country::It),
        country_of_code('J' as u8, 'E' as u8) == Some(Country::Je),
        country_of_code('J' as u8, 'M' as u8) == Some(Country::Jm),
        country_of_code('J' as u8, 'O' as u8) == Some(Country::Jo),
        country_of_code('J' as u8, 'P' as u8) == Some(Country::Jp),
        country_of_code('K' as u8, 'E' as u8) == Some(Country::Ke),
        country_of_code('K' as u8, 'G' as u8) == Some(Country::Kg),
        country_of_code('K' as u8, 'H' as u8) == Some(Country::Kh),
        country_of_code('K' as u8, 'I' as u8) == Some(Country::Ki),
        country_of_code('K' as u8, 'M' as u8) == Some(Country::Km),
        country_of_code('K' as u8, 'N' as u8) == Some(Country::Kn),
        country_of_code('K' as u8, 'P' as u8) == Some(Country::Kp),
        country_of_code('K' as u8, 'R' as u8) == Some(Country::Kr),
        country_of_code('K' as u8, 'W' as u8) == Some(Country::Kw),
        country_of_code('K' as u8, 'Y' as u8) == Some(Country::Ky),
        country_of_code('K' as u8, 'Z' as u8) == Some(Country::Kz),
        country_of_code('L' as u8, 'A' as u8) == Some(Country::La),
        country_of_code('L' as u8, 'B' as u8) == Some(Country::Lb),
        country_of_code('L' as u8, 'C' as u8) == Some(Country::Lc),
        country_of_code('L' as u8, 'I' as u8) == Some(Country::Li),
        country_of_code('L' as u8, 'K' as u8) == Some(Country::Lk),
        country_of_code('L' as u8, 'R' as u8) == Some(Country::Lr),
        country_of_code('L' as u8, 'S' as u8) == Some(Country::Ls),
        country_of_code('L' as u8, 'T' as u8) == Some(Country::Lt),
        country_of_code('L' as u8, 'U' as u8) == Some(Country::Lu),
        country_of_code('L' as u8, 'V' as u8) == Some(Country::Lv),
        country_of_code('L' as u8, 'Y' as u8) == Some(Country::Ly),
        country_of_code('M' as u8, 'A' as u8) == Some(Country::Ma),
        country_of_code('M' as u8, 'C' as u8) == Some(Country::Mc),
        country_of_code('M' as u8, 'D' as u8) == Some(Country::Md),
        country_of_code('M' as u8, 'E' as u8) == Some(Country::Me),
        country_of_code('M' as u8, 'F' as u8) == Some(Country::Mf),
        country_of_code('M' as u8, 'G' as u8) == Some(Country::Mg),
        country_of_code('M' as u8, 'H' as u8) == Some(Country::Mh),
        country_of_code('M' as u8, 'K' as u8) == Some(Country::Mk),
        country_of_code('M' as u8, 'L' as u8) == Some(Country::Ml),
        country_of_code('M' as u8, 'M' as u8) == Some(Country::Mm),
        country_of_code('M' as u8, 'N' as u8) == Some(Country::Mn),
        country_of_code('M' as u8, 'O' as u8) == Some(Country::Mo),
        country_of_code('M' as u8, 'P' as u8) == Some(Country::Mp),
        country_of_code('M' as u8, 'Q' as u8) == Some(Country::Mq),
        country_of_code('M' as u8, 'R' as u8) == Some(Country::Mr),
        country_of_code('M' as u8, 'S' as u8) == Some(Country::Ms),
        country_of_code('M' as u8, 'T' as u8) == Some(Country::Mt),
        country_of_code('M' as u8, 'U' as u8) == Some(Country::Mu),
        country_of_code('M' as u8, 'V' as u8) == Some(Country::Mv),
        country_of_code('M' as u8, 'W' as u8) == Some(Country::Mw),
        country_of_code('M' as u8, 'X' as u8) == Some(Country::Mx),
        country_of_code('M' as u8, 'Y' as u8) == Some(Country::My),
        country_of_code('M' as u8, 'Z' as u8) == Some(Country::Mz),
        country_of_code('N' as u8, 'A' as u8) == Some(Country::Na),
        country_of_code('N' as u8, 'C' as u8) == Some(Country::Nc),
        country_of_code('N' as u8, 'E' as u8) == Some(Country::Ne),
        country_of_code('N' as u8, 'F' as u8) == Some(Country::Nf),
        country_of_code('N' as u8, 'G' as u8) == Some(Country::Ng),
        country_of_code('N' as u8, 'I' as u8) == Some(Country::Ni),
        country_of_code('N' as u8, 'L' as u8) == Some(Country::Nl),
        country_of_code('N' as u8, 'O' as u8) == Some(Country::No),
        country_of_code('N' as u8, 'P' as u8) == Some(Country::Np),
        country_of_code('N' as u8, 'R' as u8) == Some(Country::Nr),
        country_of_code('N' as u8, 'U' as u8) == Some(Country::Nu),
        country_of_code('N' as u8, 'Z' as u8) == Some(Country::Nz),
        country_of_code('O' as u8, 'M' as u8) == Some(Country::Om),
        country_of_code('P' as u8, 'A' as u8) == Some(Country::Pa),
        country_of_code('P' as u8, 'E' as u8) == Some(Country::Pe),
        country_of_code('P' as u8, 'F' as u8) == Some(Country::Pf),
        country_of_code('P' as u8, 'G' as u8) == Some(Country::Pg),
        country_of_code('P' as u8, 'H' as u8) == Some(Country::Ph),
        country_of_code('P' as u8, 'K' as u8) == Some(Country::Pk),
        country_of_code('P' as u8, 'L' as u8) == Some(Country::Pl),
        country_of_code('P' as u8, 'M' as u8) == Some(Country::Pm),
        country_of_code('P' as u8, 'N' as u8) == Some(Country::Pn),
        country_of_code('P' as u8, 'R' as u8) == Some(Country::Pr),
        country_of_code('P' as u8, 'S' as u8) == Some(Country::Ps),
        country_of_code('P' as u8, 'T' as u8) == Some(Country::Pt),
        country_of_code('P' as u8, 'W' as u8) == Some(Country::Pw),
        country_of_code('P' as u8, 'Y' as u8) == Some(Country::Py),
        country_of_code('Q' as u8, 'A' as u8) == Some(Country::Qa),
        country_of_code('R' as u8, 'E' as u8) == Some(Country::Re),
        country_of_code('R' as u8, 'O' as u8) == Some(Country::Ro),
        country_of_code('R' as u8, 'S' as u8) == Some(Country::Rs),
        country_of_code('R' as u8, 'U' as u8) == Some(Country::Ru),
        country_of_code('R' as u8, 'W' as u8) == Some(Country::Rw),
        country_of_code('S' as u8, 'A' as u8) == Some(Country::Sa),
        country_of_code('S' as u8, 'B' as u8) == Some(Country::Sb),
        country_of_code('S' as u8, 'C' as u8) == Some(Country::Sc),
        country_of_code('S' as u8, 'D' as u8) == Some(Country::Sd),
        country_of_code('S' as u8, 'E' as u8) == Some(Country::Se),
        country_of_code('S' as u8, 'G' as u8) == Some(Country::Sg),
        country_of_code('S' as u8, 'H' as u8) == Some(Country::Sh),
        country_of_code('S' as u8, 'I' as u8) == Some(Country::Si),
        country_of_code('S' as u8, 'J' as u8) == Some(Country::Sj),
        country_of_code('S' as u8, 'K' as u8) == Some(Country::Sk),
        country_of_code('S' as u8, 'L' as u8) == Some(Country::Sl),
        country_of_code('S' as u8, 'M' as u8) == Some(Country::Sm),
        country_of_code('S' as u8, 'N' as u8) == Some(Country::Sn),
        country_of_code('S' as u8, 'O' as u8) == Some(Country::So),
        country_of_code('S' as u8, 'R' as u8) == Some(Country::Sr),
        country_of_code('S' as u8, 'S' as u8) == Some(Country::Ss),
        country_of_code('S' as u8, 'T' as u8) == Some(Country::St),
        country_of_code('S' as u8, 'V' as u8) == Some(Country::Sv),
        country_of_code('S' as u8, 'X' as u8) == Some(Country::Sx),
        country_of_code('S' as u8, 'Y' as u8) == Some(Country::Sy),
        country_of_code('S' as u8, 'Z' as u8) == Some(Country::Sz),
        country_of_code('T' as u8, 'C' as u8) == Some(Country::Tc),
        country_of_code('T' as u8, 'D' as u8) == Some(Country::Td),
        country_of_code('T' as u8, 'F' as u8) == Some(Country::Tf),
        country_of_code('T' as u8, 'G' as u8) == Some(Country::Tg),
        country_of_code('T' as u8, 'H' as u8) == Some(Country::Th),
        country_of_code('T' as u8, 'J' as u8) == Some(Country::Tj),
        country_of_code('T' as u8, 'K' as u8) == Some(Country::Tk),
        country_of_code('T' as u8, 'L' as u8) == Some(Country::Tl),
        country_of_code('T' as u8, 'M' as u8) == Some(Country::Tm),
        country_of_code('T' as u8, 'N' as u8) == Some(Country::Tn),
        country_of_code('T' as u8, 'O' as u8) == Some(Country::To),
        country_of_code('T' as u8, 'R' as u8) == Some(Country::Tr),
        country_of_code('T' as u8, 'T' as u8) == Some(Country::Tt),
        country_of_code('T' as u8, 'V' as u8) == Some(Country::Tv),
        country_of_code('T' as u8, 'W' as u8) == Some(Country::Tw),
        country_of_code('T' as u8, 'Z' as u8) == Some(Country::Tz),
        country_of_code('U' as u8, 'A' as u8) == Some(Country::Ua),
        country_of_code('U' as u8, 'G' as u8) == Some(Country::Ug),
        country_of_code('U' as u8, 'M' as u8) == Some(Country::Um),
        country_of_code('U' as u8, 'S' as u8) == Some(Country::Us),
        country_of_code('U' as u8, 'Y' as u8) == Some(Country::Uy),
        country_of_code('U' as u8, 'Z' as u8) == Some(Country::Uz),
        country_of_code('V' as u8, 'A' as u8) == Some(Country::Va),
        country_of_code('V' as u8, 'C' as u8) == Some(Country::Vc),
        country_of_code('V' as u8, 'E' as u8) == Some(Country::Ve),
        country_of_code('V' as u8, 'G' as u8) == Some(Country::Vg),
        country_of_code('V' as u8, 'I' as u8) == Some(Country::Vi),
        country_of_code('V' as u8, 'N' as u8) == Some(Country::Vn),
        country_of_code('V' as u8, 'U' as u8) == Some(Country::Vu),
        country_of_code('W' as u8, 'F' as u8) == Some(Country::Wf),
        country_of_code('W' as u8, 'S' as u8) == Some(Country::Ws),
        country_of_code('Y' as u8, 'E' as u8) == Some(Country::Ye),
        country_of_code('Y' as u8, 'T' as u8) == Some(Country::Yt),
        country_of_code('Z' as u8, 'A' as u8) == Some(Country::Za),
        country_of_code('Z' as u8, 'M' as u8) == Some(Country::Zm),
        country_of_code('Z' as u8, 'W' as u8) == Some(Country::Zw),
{
}

impl Country {
    /// Canonical two-letter uppercase code.
    pub fn as_code(self) -> (r: [u8; 2])
        ensures
            r@ == seq![country_code(self).0, country_code(self).1],
    {
        match self {
            Country::Ad => [65u8, 68u8],
            Country::Ae => [65u8, 69u8],
            Country::Af => [65u8, 70u8],
            Country::Ag => [65u8, 71u8],
            Country::Ai => [65u8, 73u8],
            Country::Al => [65u8, 76u8],
            Country::Am => [65u8, 77u8],
            Country::Ao => [65u8, 79u8],
            Country::Aq => [65u8, 81u8],
            Country::Ar => [65u8, 82u8],
            Country::As => [65u8, 83u8],
            Country::At => [65u8, 84u8],
            Country::Au => [65u8, 85u8],
            Country::Aw => [65u8, 87u8],
            Country::Ax => [65u8, 88u8],
            Country::Az => [65u8, 90u8],
            Country::Ba => [66u8, 65u8],
            Country::Bb => [66u8, 66u8],
            Country::Bd => [66u8, 68u8],
            Country::Be => [66u8, 69u8],
            Country::Bf => [66u8, 70u8],
            Country::Bg => [66u8, 71u8],
            Country::Bh => [66u8, 72u8],
            Country::Bi => [66u8, 73u8],
            Country::Bj => [66u8, 74u8],
            Country::Bl => [66u8, 76u8],
            Country::Bm => [66u8, 77u8],
            Country::Bn => [66u8, 78u8],
            Country::Bo => [66u8, 79u8],
            Country::Bq => [66u8, 81u8],
            Country::Br => [66u8, 82u8],
            Country::Bs => [66u8, 83u8],
            Country::Bt => [66u8, 84u8],
            Country::Bv => [66u8, 86u8],
            Country::Bw => [66u8, 87u8],
            Country::By => [66u8, 89u8],
            Country::Bz => [66u8, 90u8],
            Country::Ca => [67u8, 65u8],
            Country::Cc => [67u8, 67u8],
            Country::Cd => [67u8, 68u8],
            Country::Cf => [67u8, 70u8],
            Country::Cg => [67u8, 71u8],
            Country::Ch => [67u8, 72u8],
            Country::Ci => [67u8, 73u8],
            Country::Ck => [67u8, 75u8],
            Country::Cl => [67u8, 76u8],
            Country::Cm => [67u8, 77u8],
            Country::Cn => [67u8, 78u8],
            Country::Co => [67u8, 79u8],
            Country::Cr => [67u8, 82u8],
            Country::Cu => [67u8, 85u8],
            Country::Cv => [67u8, 86u8],
            Country::Cw => [67u8, 87u8],
            Country::Cx => [67u8, 88u8],
            Country::Cy => [67u8, 89u8],
            Country::Cz => [67u8, 90u8],
            Country::De => [68u8, 69u8],
            Country::Dj => [68u8, 74u8],
            Country::Dk => [68u8, 75u8],
            Country::Dm => [68u8, 77u8],
            Country::Do => [68u8, 79u8],
            Country::Dz => [68u8, 90u8],
            Country::Ec => [69u8, 67u8],
            Country::Ee => [69u8, 69u8],
            Country::Eg => [69u8, 71u8],
            Country::Eh => [69u8, 72u8],
            Country::Er => [69u8, 82u8],
            Country::Es => [69u8, 83u8],
            Country::Et => [69u8, 84u8],
            Country::Fi => [70u8, 73u8],
            Country::Fj => [70u8, 74u8],
            Country::Fk => [70u8, 75u8],
            Country::Fm => [70u8, 77u8],
            Country::Fo => [70u8, 79u8],
            Country::Fr => [70u8, 82u8],
            Country::Ga => [71u8, 65u8],
            Country::Gb => [71u8, 66u8],
            Country::Gd => [71u8, 68u8],
            Country::Ge => [71u8, 69u8],
            Country::Gf => [71u8, 70u8],
            Country::Gg => [71u8, 71u8],
            Country::Gh => [71u8, 72u8],
            Country::Gi => [71u8, 73u8],
            Country::Gl => [71u8, 76u8],
            Country::Gm => [71u8, 77u8],
            Country::Gn => [71u8, 78u8],
            Country::Gp => [71u8, 80u8],
            Country::Gq => [71u8, 81u8],
            Country::Gr => [71u8, 82u8],
            Country::Gs => [71u8, 83u8],
            Country::Gt => [71u8, 84u8],
            Country::Gu => [71u8, 85u8],
            Country::Gw => [71u8, 87u8],
            Country::Gy => [71u8, 89u8],
            Country::Hk => [72u8, 75u8],
            Country::Hm => [72u8, 77u8],
            Country::Hn => [72u8, 78u8],
            Country::Hr => [72u8, 82u8],
            Country::Ht => [72u8, 84u8],
            Country::Hu => [72u8, 85u8],
            Country::Id => [73u8, 68u8],
            Country::Ie => [73u8, 69u8],
            Country::Il => [73u8, 76u8],
            Country::Im => [73u8, 77u8],
            Country::In => [73u8, 78u8],
            Country::Io => [73u8, 79u8],
            Country::Iq => [73u8, 81u8],
            Country::Ir => [73u8, 82u8],
            Country::Is => [73u8, 83u8],
            Country::It => [73u8, 84u8],
            Country::Je => [74u8, 69u8],
            Country::Jm => [74u8, 77u8],
            Country::Jo => [74u8, 79u8],
            Country::Jp => [74u8, 80u8],
            Country::Ke => [75u8, 69u8],
            Country::Kg => [75u8, 71u8],
            Country::Kh => [75u8, 72u8],
            Country::Ki => [75u8, 73u8],
            Country::Km => [75u8, 77u8],
            Country::Kn => [75u8, 78u8],
            Country::Kp => [75u8, 80u8],
            Country::Kr => [75u8, 82u8],
            Country::Kw => [75u8, 87u8],
            Country::Ky => [75u8, 89u8],
            Country::Kz => [75u8, 90u8],
            Country::La => [76u8, 65u8],
            Country::Lb => [76u8, 66u8],
            Country::Lc => [76u8, 67u8],
            Country::Li => [76u8, 73u8],
            Country::Lk => [76u8, 75u8],
            Country::Lr => [76u8, 82u8],
            Country::Ls => [76u8, 83u8],
            Country::Lt => [76u8, 84u8],
            Country::Lu => [76u8, 85u8],
            Country::Lv => [76u8, 86u8],
            Country::Ly => [76u8, 89u8],
            Country::Ma => [77u8, 65u8],
            Country::Mc => [77u8, 67u8],
            Country::Md => [77u8, 68u8],
            Country::Me => [77u8, 69u8],
            Country::Mf => [77u8, 70u8],
            Country::Mg => [77u8, 71u8],
            Country::Mh => [77u8, 72u8],
            Country::Mk => [77u8, 75u8],
            Country::Ml => [77u8, 76u8],
            Country::Mm => [77u8, 77u8],
            Country::Mn => [77u8, 78u8],
            Country::Mo => [77u8, 79u8],
            Country::Mp => [77u8, 80u8],
            Country::Mq => [77u8, 81u8],
            Country::Mr => [77u8, 82u8],
            Country::Ms => [77u8, 83u8],
            Country::Mt => [77u8, 84u8],
            Country::Mu => [77u8, 85u8],
            Country::Mv => [77u8, 86u8],
            Country::Mw => [77u8, 87u8],
            Country::Mx => [77u8, 88u8],
            Country::My => [77u8, 89u8],
            Country::Mz => [77u8, 90u8],
            Country::Na => [78u8, 65u8],
            Country::Nc => [78u8, 67u8],
            Country::Ne => [78u8, 69u8],
            Country::Nf => [78u8, 70u8],
            Country::Ng => [78u8, 71u8],
            Country::Ni => [78u8, 73u8],
            Country::Nl => [78u8, 76u8],
            Country::No => [78u8, 79u8],
            Country::Np => [78u8, 80u8],
            Country::Nr => [78u8, 82u8],
            Country::Nu => [78u8, 85u8],
            Country::Nz => [78u8, 90u8],
            Country::Om => [79u8, 77u8],
            Country::Pa => [80u8, 65u8],
            Country::Pe => [80u8, 69u8],
            Country::Pf => [80u8, 70u8],
            Country::Pg => [80u8, 71u8],
            Country::Ph => [80u8, 72u8],
            Country::Pk => [80u8, 75u8],
            Country::Pl => [80u8, 76u8],
            Country::Pm => [80u8, 77u8],
            Country::Pn => [80u8, 78u8],
            Country::Pr => [80u8, 82u8],
            Country::Ps => [80u8, 83u8],
            Country::Pt => [80u8, 84u8],
            Country::Pw => [80u8, 87u8],
            Country::Py => [80u8, 89u8],
            Country::Qa => [81u8, 65u8],
            Country::Re => [82u8, 69u8],
            Country::Ro => [82u8, 79u8],
            Country::Rs => [82u8, 83u8],
            Country::Ru => [82u8, 85u8],
            Country::Rw => [82u8, 87u8],
            Country::Sa => [83u8, 65u8],
            Country::Sb => [83u8, 66u8],
            Country::Sc => [83u8, 67u8],
            Country::Sd => [83u8, 68u8],
            Country::Se => [83u8, 69u8],
            Country::Sg => [83u8, 71u8],
            Country::Sh => [83u8, 72u8],
            Country::Si => [83u8, 73u8],
            Country::Sj => [83u8, 74u8],
            Country::Sk => [83u8, 75u8],
            Country::Sl => [83u8, 76u8],
            Country::Sm => [83u8, 77u8],
            Country::Sn => [83u8, 78u8],
            Country::So => [83u8, 79u8],
            Country::Sr => [83u8, 82u8],
            Country::Ss => [83u8, 83u8],
            Country::St => [83u8, 84u8],
            Country::Sv => [83u8, 86u8],
            Country::Sx => [83u8, 88u8],
            Country::Sy => [83u8, 89u8],
            Country::Sz => [83u8, 90u8],
            Country::Tc => [84u8, 67u8],
            Country::Td => [84u8, 68u8],
            Country::Tf => [84u8, 70u8],
            Country::Tg => [84u8, 71u8],
            Country::Th => [84u8, 72u8],
            Country::Tj => [84u8, 74u8],
            Country::Tk => [84u8, 75u8],
            Country::Tl => [84u8, 76u8],
            Country::Tm => [84u8, 77u8],
            Country::Tn => [84u8, 78u8],
            Country::To => [84u8, 79u8],
            Country::Tr => [84u8, 82u8],
            Country::Tt => [84u8, 84u8],
            Country::Tv => [84u8, 86u8],
            Country::Tw => [84u8, 87u8],
            Country::Tz => [84u8, 90u8],
            Country::Ua => [85u8, 65u8],
            Country::Ug => [85u8, 71u8],
            Country::Um => [85u8, 77u8],
            Country::Us => [85u8, 83u8],
            Country::Uy => [85u8, 89u8],
            Country::Uz => [85u8, 90u8],
            Country::Va => [86u8, 65u8],
            Country::Vc => [86u8, 67u8],
            Country::Ve => [86u8, 69u8],
            Country::Vg => [86u8, 71u8],
            Country::Vi => [86u8, 73u8],
            Country::Vn => [86u8, 78u8],
            Country::Vu => [86u8, 85u8],
            Country::Wf => [87u8, 70u8],
            Country::Ws => [87u8, 83u8],
            Country::Ye => [89u8, 69u8],
            Country::Yt => [89u8, 84u8],
            Country::Za => [90u8, 65u8],
            Country::Zm => [90u8, 77u8],
            Country::Zw => [90u8, 87u8],
        }
    }

    /// Parses a two-byte code (case-sensitive: canonical codes are uppercase).
    pub fn from_code(code: &[u8]) -> (r: Option<Country>)
        ensures
            r == country_from_code_spec(code@),
    {
        if code.len() != 2 {
            return None;
        }
        match (code[0], code[1]) {
            (65, 68) => Some(Country::Ad),
            (65, 69) => Some(Country::Ae),
            (65, 70) => Some(Country::Af),
            (65, 71) => Some(Country::Ag),
            (65, 73) => Some(Country::Ai),
            (65, 76) => Some(Country::Al),
            (65, 77) => Some(Country::Am),
            (65, 79) => Some(Country::Ao),
            (65, 81) => Some(Country::Aq),
            (65, 82) => Some(Country::Ar),
            (65, 83) => Some(Country::As),
            (65, 84) => Some(Country::At),
            (65, 85) => Some(Country::Au),
            (65, 87) => Some(Country::Aw),
            (65, 88) => Some(Country::Ax),
            (65, 90) => Some(Country::Az),
            (66, 65) => Some(Country::Ba),
            (66, 66) => Some(Country::Bb),
            (66, 68) => Some(Country::Bd),
            (66, 69) => Some(Country::Be),
            (66, 70) => Some(Country::Bf),
            (66, 71) => Some(Country::Bg),
            (66, 72) => Some(Country::Bh),
            (66, 73) => Some(Country::Bi),
            (66, 74) => Some(Country::Bj),
            (66, 76) => Some(Country::Bl),
            (66, 77) => Some(Country::Bm),
            (66, 78) => Some(Country::Bn),
            (66, 79) => Some(Country::Bo),
            (66, 81) => Some(Country::Bq),
            (66, 82) => Some(Country::Br),
            (66, 83) => Some(Country::Bs),
            (66, 84) => Some(Country::Bt),
            (66, 86) => Some(Country::Bv),
            (66, 87) => Some(Country::Bw),
            (66, 89) => Some(Country::By),
            (66, 90) => Some(Country::Bz),
            (67, 65) => Some(Country::Ca),
            (67, 67) => Some(Country::Cc),
            (67, 68) => Some(Country::Cd),
            (67, 70) => Some(Country::Cf),
            (67, 71) => Some(Country::Cg),
            (67, 72) => Some(Country::Ch),
            (67, 73) => Some(Country::Ci),
            (67, 75) => Some(Country::Ck),
            (67, 76) => Some(Country::Cl),
            (67, 77) => Some(Country::Cm),
            (67, 78) => Some(Country::Cn),
            (67, 79) => Some(Country::Co),
            (67, 82) => Some(Country::Cr),
            (67, 85) => Some(Country::Cu),
            (67, 86) => Some(Country::Cv),
            (67, 87) => Some(Country::Cw),
            (67, 88) => Some(Country::Cx),
            (67, 89) => Some(Country::Cy),
            (67, 90) => Some(Country::Cz),
            (68, 69) => Some(Country::De),
            (68, 74) => Some(Country::Dj),
            (68, 75) => Some(Country::Dk),
            (68, 77) => Some(Country::Dm),
            (68, 79) => Some(Country::Do),
            (68, 90) => Some(Country::Dz),
            (69, 67) => Some(Country::Ec),
            (69, 69) => Some(Country::Ee),
            (69, 71) => Some(Country::Eg),
            (69, 72) => Some(Country::Eh),
            (69, 82) => Some(Country::Er),
            (69, 83) => Some(Country::Es),
            (69, 84) => Some(Country::Et),
            (70, 73) => Some(Country::Fi),
            (70, 74) => Some(Country::Fj),
            (70, 75) => Some(Country::Fk),
            (70, 77) => Some(Country::Fm),
            (70, 79) => Some(Country::Fo),
            (70, 82) => Some(Country::Fr),
            (71, 65) => Some(Country::Ga),
            (71, 66) => Some(Country::Gb),
            (71, 68) => Some(Country::Gd),
            (71, 69) => Some(Country::Ge),
            (71, 70) => Some(Country::Gf),
            (71, 71) => Some(Country::Gg),
            (71, 72) => Some(Country::Gh),
            (71, 73) => Some(Country::Gi),
            (71, 76) => Some(Country::Gl),
            (71, 77) => Some(Country::Gm),
            (71, 78) => Some(Country::Gn),
            (71, 80) => Some(Country::Gp),
            (71, 81) => Some(Country::Gq),
            (71, 82) => Some(Country::Gr),
            (71, 83) => Some(Country::Gs),
            (71, 84) => Some(Country::Gt),
            (71, 85) => Some(Country::Gu),
            (71, 87) => Some(Country::Gw),
            (71, 89) => Some(Country::Gy),
            (72, 75) => Some(Country::Hk),
            (72, 77) => Some(Country::Hm),
            (72, 78) => Some(Country::Hn),
            (72, 82) => Some(Country::Hr),
            (72, 84) => Some(Country::Ht),
            (72, 85) => Some(Country::Hu),
            (73, 68) => Some(Country::Id),
            (73, 69) => Some(Country::Ie),
            (73, 76) => Some(Country::Il),
            (73, 77) => Some(Country::Im),
            (73, 78) => Some(Country::In),
            (73, 79) => Some(Country::Io),
            (73, 81) => Some(Country::Iq),
            (73, 82) => Some(Country::Ir),
            (73, 83) => Some(Country::Is),
            (73, 84) => Some(Country::It),
            (74, 69) => Some(Country::Je),
            (74, 77) => Some(Country::Jm),
            (74, 79) => Some(Country::Jo),
            (74, 80) => Some(Country::Jp),
            (75, 69) => Some(Country::Ke),
            (75, 71) => Some(Country::Kg),
            (75, 72) => Some(Country::Kh),
            (75, 73) => Some(Country::Ki),
            (75, 77) => Some(Country::Km),
            (75, 78) => Some(Country::Kn),
            (75, 80) => Some(Country::Kp),
            (75, 82) => Some(Country::Kr),
            (75, 87) => Some(Country::Kw),
            (75, 89) => Some(Country::Ky),
            (75, 90) => Some(Country::Kz),
            (76, 65) => Some(Country::La),
            (76, 66) => Some(Country::Lb),
            (76, 67) => Some(Country::Lc),
            (76, 73) => Some(Country::Li),
            (76, 75) => Some(Country::Lk),
            (76, 82) => Some(Country::Lr),
            (76, 83) => Some(Country::Ls),
            (76, 84) => Some(Country::Lt),
            (76, 85) => Some(Country::Lu),
            (76, 86) => Some(Country::Lv),
            (76, 89) => Some(Country::Ly),
            (77, 65) => Some(Country::Ma),
            (77, 67) => Some(Country::Mc),
            (77, 68) => Some(Country::Md),
            (77, 69) => Some(Country::Me),
            (77, 70) => Some(Country::Mf),
            (77, 71) => Some(Country::Mg),
            (77, 72) => Some(Country::Mh),
            (77, 75) => Some(Country::Mk),
            (77, 76) => Some(Country::Ml),
            (77, 77) => Some(Country::Mm),
            (77, 78) => Some(Country::Mn),
            (77, 79) => Some(Country::Mo),
            (77, 80) => Some(Country::Mp),
            (77, 81) => Some(Country::Mq),
            (77, 82) => Some(Country::Mr),
            (77, 83) => Some(Country::Ms),
            (77, 84) => Some(Country::Mt),
            (77, 85) => Some(Country::Mu),
            (77, 86) => Some(Country::Mv),
            (77, 87) => Some(Country::Mw),
            (77, 88) => Some(Country::Mx),
            (77, 89) => Some(Country::My),
            (77, 90) => Some(Country::Mz),
            (78, 65) => Some(Country::Na),
            (78, 67) => Some(Country::Nc),
            (78, 69) => Some(Country::Ne),
            (78, 70) => Some(Country::Nf),
            (78, 71) => Some(Country::Ng),
            (78, 73) => Some(Country::Ni),
            (78, 76) => Some(Country::Nl),
            (78, 79) => Some(Country::No),
            (78, 80) => Some(Country::Np),
            (78, 82) => Some(Country::Nr),
            (78, 85) => Some(Country::Nu),
            (78, 90) => Some(Country::Nz),
            (79, 77) => Some(Country::Om),
            (80, 65) => Some(Country::Pa),
            (80, 69) => Some(Country::Pe),
            (80, 70) => Some(Country::Pf),
            (80, 71) => Some(Country::Pg),
            (80, 72) => Some(Country::Ph),
            (80, 75) => Some(Country::Pk),
            (80, 76) => Some(Country::Pl),
            (80, 77) => Some(Country::Pm),
            (80, 78) => Some(Country::Pn),
            (80, 82) => Some(Country::Pr),
            (80, 83) => Some(Country::Ps),
            (80, 84) => Some(Country::Pt),
            (80, 87) => Some(Country::Pw),
            (80, 89) => Some(Country::Py),
            (81, 65) => Some(Country::Qa),
            (82, 69) => Some(Country::Re),
            (82, 79) => Some(Country::Ro),
            (82, 83) => Some(Country::Rs),
            (82, 85) => Some(Country::Ru),
            (82, 87) => Some(Country::Rw),
            (83, 65) => Some(Country::Sa),
            (83, 66) => Some(Country::Sb),
            (83, 67) => Some(Country::Sc),
            (83, 68) => Some(Country::Sd),
            (83, 69) => Some(Country::Se),
            (83, 71) => Some(Country::Sg),
            (83, 72) => Some(Country::Sh),
            (83, 73) => Some(Country::Si),
            (83, 74) => Some(Country::Sj),
            (83, 75) => Some(Country::Sk),
            (83, 76) => Some(Country::Sl),
            (83, 77) => Some(Country::Sm),
            (83, 78) => Some(Country::Sn),
            (83, 79) => Some(Country::So),
            (83, 82) => Some(Country::Sr),
            (83, 83) => Some(Country::Ss),
            (83, 84) => Some(Country::St),
            (83, 86) => Some(Country::Sv),
            (83, 88) => Some(Country::Sx),
            (83, 89) => Some(Country::Sy),
            (83, 90) => Some(Country::Sz),
            (84, 67) => Some(Country::Tc),
            (84, 68) => Some(Country::Td),
            (84, 70) => Some(Country::Tf),
            (84, 71) => Some(Country::Tg),
            (84, 72) => Some(Country::Th),
            (84, 74) => Some(Country::Tj),
            (84, 75) => Some(Country::Tk),
            (84, 76) => Some(Country::Tl),
            (84, 77) => Some(Country::Tm),
            (84, 78) => Some(Country::Tn),
            (84, 79) => Some(Country::To),
            (84, 82) => Some(Country::Tr),
            (84, 84) => Some(Country::Tt),
            (84, 86) => Some(Country::Tv),
            (84, 87) => Some(Country::Tw),
            (84, 90) => Some(Country::Tz),
            (85, 65) => Some(Country::Ua),
            (85, 71) => Some(Country::Ug),
            (85, 77) => Some(Country::Um),
            (85, 83) => Some(Country::Us),
            (85, 89) => Some(Country::Uy),
            (85, 90) => Some(Country::Uz),
            (86, 65) => Some(Country::Va),
            (86, 67) => Some(Country::Vc),
            (86, 69) => Some(Country::Ve),
            (86, 71) => Some(Country::Vg),
            (86, 73) => Some(Country::Vi),
            (86, 78) => Some(Country::Vn),
            (86, 85) => Some(Country::Vu),
            (87, 70) => Some(Country::Wf),
            (87, 83) => Some(Country::Ws),
            (89, 69) => Some(Country::Ye),
            (89, 84) => Some(Country::Yt),
            (90, 65) => Some(Country::Za),
            (90, 77) => Some(Country::Zm),
            (90, 87) => Some(Country::Zw),
            _ => None,
        }
    }

    /// Parses a two-byte code, accepting any ASCII case.
    pub fn from_code_ignore_ascii_case(code: &[u8]) -> (r: Option<Country>)
        ensures
            code@.len() == 2 ==> r == country_of_code(fold_case(code@[0]), fold_case(code@[1])),
            code@.len() != 2 ==> r is None,
    {
        if code.len() != 2 {
            return None;
        }
        let folded: [u8; 2] = [fold_byte(code[0]), fold_byte(code[1])];
        Self::from_code(folded.as_slice())
    }
}

/// Folds one byte to the canonical case of the code table.
fn fold_byte(b: u8) -> (r: u8)
    ensures
        r == fold_case(b),
{
    if 97 <= b && b <= 122 {
        b - 32
    } else {
        b
    }
}

} // verus!
