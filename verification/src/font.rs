//! The terminal font configuration: which of the four primary faces come
//! from a configured system family (each face falling back to the regular
//! face's family), the weight and slant each family is queried at, the
//! lookup through a `fontique` collection, and the UI font choice.

use vstd::prelude::*;
use fontique::{Collection, FamilyId, SourceCache};

verus! {

/// `fontique`'s font collection (system font database plus registered
/// fonts); opaque here.
#[verifier::external_type_specification]
#[verifier::external_body]
pub struct ExCollection(fontique::Collection);

/// `fontique`'s cache of loaded font sources; opaque here.
#[verifier::external_type_specification]
#[verifier::external_body]
pub struct ExSourceCache(fontique::SourceCache);

/// `fontique`'s identifier of a font family; opaque here.
#[verifier::external_type_specification]
#[verifier::external_body]
pub struct ExFamilyId(fontique::FamilyId);

/// One of the terminal grid's four primary faces.
#[derive(Debug, Clone, Copy, PartialEq, Eq, Structural)]
pub enum FontFace {
    Regular,
    Bold,
    Italic,
    BoldItalic,
}

/// A face's slant.
#[derive(Debug, Clone, Copy, PartialEq, Eq, Structural)]
pub enum FontSlant {
    Normal,
    Italic,
    Oblique,
}

/// The weight and slant a family is queried at (width is always normal).
#[derive(Debug, Clone, Copy, PartialEq, Eq, Structural)]
pub struct FaceStyle {
    /// CSS weight: 400 is normal, 700 bold.
    pub weight: u16,
    pub slant: FontSlant,
}

/// The style a face is queried at when its configuration names none:
/// normal or bold weight, normal or italic slant.
pub open spec fn default_style(face: FontFace) -> FaceStyle {
    match face {
        FontFace::Regular => FaceStyle { weight: 400, slant: FontSlant::Normal },
        FontFace::Bold => FaceStyle { weight: 700, slant: FontSlant::Normal },
        FontFace::Italic => FaceStyle { weight: 400, slant: FontSlant::Italic },
        FontFace::BoldItalic => FaceStyle { weight: 700, slant: FontSlant::Italic },
    }
}

/// The query attributes of `face` (see `default_style`).
pub fn face_attributes(face: FontFace) -> (r: FaceStyle)
    ensures
        r == default_style(face),
{
    match face {
        FontFace::Regular => FaceStyle { weight: 400, slant: FontSlant::Normal },
        FontFace::Bold => FaceStyle { weight: 700, slant: FontSlant::Normal },
        FontFace::Italic => FaceStyle { weight: 400, slant: FontSlant::Italic },
        FontFace::BoldItalic => FaceStyle { weight: 700, slant: FontSlant::Italic },
    }
}

/// One face's configuration: the family it names, and the parsed style
/// it asks for.
#[derive(Debug, Clone, PartialEq, Eq)]
pub struct FaceConfig {
    pub family: Option<String>,
    pub style: Option<FaceStyle>,
}

/// The `[font]` configuration's four faces.
#[derive(Debug, Clone, PartialEq, Eq)]
pub struct FontConfig {
    pub normal: FaceConfig,
    pub bold: FaceConfig,
    pub italic: FaceConfig,
    pub bold_italic: FaceConfig,
}

/// The configuration of `face`.
pub open spec fn face_config(config: FontConfig, face: FontFace) -> FaceConfig {
    match face {
        FontFace::Regular => config.normal,
        FontFace::Bold => config.bold,
        FontFace::Italic => config.italic,
        FontFace::BoldItalic => config.bold_italic,
    }
}

/// Whether no face names a family: the bundled fonts stay as they are.
pub open spec fn no_family(config: FontConfig) -> bool {
    &&& config.normal.family is None
    &&& config.bold.family is None
    &&& config.italic.family is None
    &&& config.bold_italic.family is None
}

/// The family a face is resolved from: its own, else the regular face's.
pub open spec fn family_of(config: FontConfig, face: FontFace) -> Option<String> {
    match face_config(config, face).family {
        Some(f) => Some(f),
        None => config.normal.family,
    }
}

/// What a face asks the collection for: its family (see `family_of`) at
/// its configured style, else at the face's default style; `None` keeps
/// the bundled face.
pub open spec fn face_request(config: FontConfig, face: FontFace) -> Option<(String, FaceStyle)> {
    match family_of(config, face) {
        Some(family) => Some((
            family,
            match face_config(config, face).style {
                Some(s) => s,
                None => default_style(face),
            },
        )),
        None => None,
    }
}

/// Computes `face_request`.
pub fn request_for(config: &FontConfig, face: FontFace) -> (r: Option<(String, FaceStyle)>)
    ensures
        r == face_request(*config, face),
{
    let fc = match face {
        FontFace::Regular => &config.normal,
        FontFace::Bold => &config.bold,
        FontFace::Italic => &config.italic,
        FontFace::BoldItalic => &config.bold_italic,
    };
    let family = match &fc.family {
        Some(f) => f.clone(),
        None => match &config.normal.family {
            Some(f) => f.clone(),
            None => return None,
        },
    };
    let style = match fc.style {
        Some(s) => s,
        None => face_attributes(face),
    };
    Some((family, style))
}

/// The configured family is absent from the collection, or present with no
/// face matching the query.
#[derive(Debug, Clone, Copy, PartialEq, Eq, Structural)]
pub struct FamilyNotFound;

/// The family names a collection answers to: every spelling under which
/// its name lookup (`Collection::family_id`) finds one of the families it
/// holds, registered or (once the collection loaded them) installed on the
/// machine. Every contract over it assumes a collection built without a
/// shared store (`CollectionOptions::shared` off): a shared store can be
/// changed by the collection's other handles at any time, which no contract
/// here can follow.
pub uninterp spec fn known_family_names(collection: Collection) -> Set<Seq<char>>;

/// Looks `family` up by name in the collection (`Collection::family_id`):
/// found exactly when the collection answers to the name; the names it
/// answers to stay. The id found is not stated.
#[verifier::external_body]
fn family_id(collection: &mut Collection, family: &str) -> (r: Option<FamilyId>)
    ensures
        r is Some <==> known_family_names(*old(collection)).contains(family@),
        known_family_names(*final(collection)) == known_family_names(*old(collection)),
{
    collection.family_id(family)
}

/// A font a query matched: its file bytes and `.ttc` face index, and the
/// family and style the query asked for.
#[derive(Debug, Clone, PartialEq, Eq)]
pub struct FaceMatch {
    pub bytes: Vec<u8>,
    pub index: u32,
    pub family: String,
    pub style: FaceStyle,
}

/// Queries the collection for `family` at `style` (normal width) and
/// returns the first matching font's file bytes and `.ttc` face index
/// (`Collection::query`, `Query::set_families`, `Query::set_attributes`,
/// `Query::first_available_font`), recorded with the family and style asked
/// for. Which font matches, if any, is not stated: it depends on the font
/// files on the machine. A query only reads the collection's family names,
/// so the names it answers to stay.
#[verifier::external_body]
fn query_face(collection: &mut Collection, cache: &mut SourceCache, family: &str, style: FaceStyle) -> (r: Option<FaceMatch>)
    ensures
        r matches Some(m) ==> m.family@ == family@ && m.style == style,
        known_family_names(*final(collection)) == known_family_names(*old(collection)),
{
    let mut query = collection.query(cache);
    query.set_families([fontique::QueryFamily::Named(family)]);
    let slant = match style.slant {
        FontSlant::Normal => fontique::FontStyle::Normal,
        FontSlant::Italic => fontique::FontStyle::Italic,
        FontSlant::Oblique => fontique::FontStyle::Oblique(None),
    };
    query.set_attributes(fontique::Attributes::new(fontique::FontWidth::NORMAL, slant, fontique::FontWeight::new(style.weight.into())));
    query.first_available_font().map(|font| FaceMatch {
        bytes: font.blob.as_ref().to_vec(),
        index: font.index,
        family: family.to_string(),
        style,
    })
}

/// The result of resolving a configured face from the two lookups: an
/// absent family is an error; a present family gives its first match (the
/// closest to the requested style), or an error when nothing matched.
pub fn configured_face_result(family_present: bool, matched: Option<FaceMatch>) -> (r: Result<FaceMatch, FamilyNotFound>)
    ensures
        r == (if !family_present {
            Err(FamilyNotFound)
        } else {
            match matched {
                Some(m) => Ok(m),
                None => Err(FamilyNotFound),
            }
        }),
{
    if !family_present {
        return Err(FamilyNotFound);
    }
    match matched {
        Some(m) => Ok(m),
        None => Err(FamilyNotFound),
    }
}

/// Resolves a configured face, telling an absent family (looked up by name
/// first, since a query silently skips unknown names) from a present one,
/// which yields its closest match (see `configured_face_result`). A family
/// the collection does not answer to is always an error; a match is one the
/// query for exactly `family` at `style` gave. For a present family, which
/// font the query matches (if any) depends on the font files and is not
/// stated.
pub fn resolve_configured_face(
    collection: &mut Collection,
    cache: &mut SourceCache,
    family: &str,
    style: FaceStyle,
) -> (r: Result<FaceMatch, FamilyNotFound>)
    ensures
        r is Ok ==> known_family_names(*old(collection)).contains(family@),
        r matches Ok(m) ==> m.family@ == family@ && m.style == style,
        known_family_names(*final(collection)) == known_family_names(*old(collection)),
{
    let id = family_id(collection, family);
    if id.is_none() {
        return configured_face_result(false, None);
    }
    let matched = query_face(collection, cache, family, style);
    configured_face_result(true, matched)
}

/// One primary face resolved for the terminal grid: its bytes, `.ttc`
/// index, and whether it came from a system family.
#[derive(Debug, Clone, PartialEq, Eq)]
pub struct ResolvedFace {
    pub bytes: Vec<u8>,
    pub index: u32,
    pub from_family: bool,
}

impl ResolvedFace {
    /// The bundled fallback for a face: the bundled bytes at index 0, not
    /// from a family.
    pub fn bundled(bundled: &[u8]) -> (r: ResolvedFace)
        ensures
            r.bytes@ == bundled@,
            r.index == 0,
            !r.from_family,
    {
        ResolvedFace { bytes: vstd::slice::slice_to_vec(bundled), index: 0, from_family: false }
    }
}

/// The bundled bytes of the four primary faces.
#[derive(Debug, Clone, PartialEq, Eq)]
pub struct BundledFaces {
    pub regular: Vec<u8>,
    pub bold: Vec<u8>,
    pub italic: Vec<u8>,
    pub bold_italic: Vec<u8>,
}

/// The bundled bytes of `face`.
pub open spec fn bundled_bytes(bundled: BundledFaces, face: FontFace) -> Seq<u8> {
    match face {
        FontFace::Regular => bundled.regular@,
        FontFace::Bold => bundled.bold@,
        FontFace::Italic => bundled.italic@,
        FontFace::BoldItalic => bundled.bold_italic@,
    }
}

/// The four resolved faces.
#[derive(Debug, Clone, PartialEq, Eq)]
pub struct FaceSet {
    pub regular: ResolvedFace,
    pub bold: ResolvedFace,
    pub italic: ResolvedFace,
    pub bold_italic: ResolvedFace,
}

/// The face of `faces` for `face`.
pub open spec fn face_of(faces: FaceSet, face: FontFace) -> ResolvedFace {
    match face {
        FontFace::Regular => faces.regular,
        FontFace::Bold => faces.bold,
        FontFace::Italic => faces.italic,
        FontFace::BoldItalic => faces.bold_italic,
    }
}

/// The UI text font: a system family, or the bundled regular face.
#[derive(Debug, Clone, PartialEq, Eq)]
pub enum UiFont {
    Family(String),
    Bundled,
}

/// The outcome of bridging the font configuration: the terminal faces to
/// install (`None` keeps the bundled fonts as they are) and the UI font.
#[derive(Debug, Clone, PartialEq, Eq)]
pub struct FontBridge {
    pub faces: Option<FaceSet>,
    pub ui_font: UiFont,
}

/// A configured family that resolved to no face, and the face it was
/// configured for.
#[derive(Debug, Clone, PartialEq, Eq)]
pub struct FontFamilyMissing {
    pub face: FontFace,
    pub family: String,
}

/// What looking a face's requested family up gave; `None` when the face was
/// not looked up.
pub type FaceLookup = Option<Result<FaceMatch, FamilyNotFound>>;

/// The lookups of the four faces.
#[derive(Debug, Clone, PartialEq, Eq)]
pub struct FaceLookups {
    pub regular: FaceLookup,
    pub bold: FaceLookup,
    pub italic: FaceLookup,
    pub bold_italic: FaceLookup,
}

/// The lookup of `face` in `lookups`.
pub open spec fn lookup_of(lookups: FaceLookups, face: FontFace) -> FaceLookup {
    match face {
        FontFace::Regular => lookups.regular,
        FontFace::Bold => lookups.bold,
        FontFace::Italic => lookups.italic,
        FontFace::BoldItalic => lookups.bold_italic,
    }
}

/// Whether `face` fails: it requests a family whose lookup gave no face.
pub open spec fn face_fails(config: FontConfig, lookups: FaceLookups, face: FontFace) -> bool {
    face_request(config, face) is Some && !(lookup_of(lookups, face) matches Some(Ok(_)))
}

/// The first failing face in the order Regular, Bold, Italic, BoldItalic.
pub open spec fn first_failing(config: FontConfig, lookups: FaceLookups) -> Option<FontFace> {
    if face_fails(config, lookups, FontFace::Regular) {
        Some(FontFace::Regular)
    } else if face_fails(config, lookups, FontFace::Bold) {
        Some(FontFace::Bold)
    } else if face_fails(config, lookups, FontFace::Italic) {
        Some(FontFace::Italic)
    } else if face_fails(config, lookups, FontFace::BoldItalic) {
        Some(FontFace::BoldItalic)
    } else {
        None
    }
}

/// The position of a face in the resolution order.
pub open spec fn face_rank(face: FontFace) -> int {
    match face {
        FontFace::Regular => 0,
        FontFace::Bold => 1,
        FontFace::Italic => 2,
        FontFace::BoldItalic => 3,
    }
}

/// Whether `r` is `face` as its lookup resolved it: a face with no family
/// keeps its bundled bytes at index 0; one with a family takes the bytes
/// and index its lookup gave, marked as from the family.
pub open spec fn resolved_from(
    config: FontConfig,
    bundled: BundledFaces,
    lookups: FaceLookups,
    face: FontFace,
    r: ResolvedFace,
) -> bool {
    match face_request(config, face) {
        None => r.bytes@ == bundled_bytes(bundled, face) && r.index == 0 && !r.from_family,
        Some(_) => match lookup_of(lookups, face) {
            Some(Ok(m)) => r.bytes@ == m.bytes@ && r.index == m.index && r.from_family,
            _ => false,
        },
    }
}

/// The UI font for a configuration whose faces all resolved: the regular
/// face's family when it has one, else the bundled regular face.
pub open spec fn ui_font_of(config: FontConfig) -> UiFont {
    match config.normal.family {
        Some(f) => UiFont::Family(f),
        None => UiFont::Bundled,
    }
}

/// Whether `r` is the bridge outcome for `config` given the faces'
/// lookups: with no family configured, the bundled fonts and UI font;
/// otherwise the first failing face (see `first_failing`) as an error naming
/// its family, or else every face resolved from its lookup (see
/// `resolved_from`) with the regular face's family as UI font.
pub open spec fn bridged_from(
    config: FontConfig,
    bundled: BundledFaces,
    lookups: FaceLookups,
    r: Result<FontBridge, FontFamilyMissing>,
) -> bool {
    if no_family(config) {
        r == Ok::<FontBridge, FontFamilyMissing>(FontBridge { faces: None, ui_font: UiFont::Bundled })
    } else {
        match first_failing(config, lookups) {
            Some(face) => r matches Err(e) && e.face == face
                && (face_request(config, face) matches Some((family, _)) && e.family == family),
            None => r matches Ok(b) && b.faces matches Some(faces)
                && resolved_from(config, bundled, lookups, FontFace::Regular, faces.regular)
                && resolved_from(config, bundled, lookups, FontFace::Bold, faces.bold)
                && resolved_from(config, bundled, lookups, FontFace::Italic, faces.italic)
                && resolved_from(config, bundled, lookups, FontFace::BoldItalic, faces.bold_italic)
                && b.ui_font == ui_font_of(config),
        }
    }
}

/// Whether the family a face requests, if any, is among `names`.
pub open spec fn family_known(config: FontConfig, face: FontFace, names: Set<Seq<char>>) -> bool {
    match face_request(config, face) {
        Some((family, _)) => names.contains(family@),
        None => true,
    }
}

/// Whether a match is one a query for `face`'s own request gave: its
/// requested family at its requested style.
pub open spec fn matches_request(config: FontConfig, face: FontFace, m: FaceMatch) -> bool {
    face_request(config, face) matches Some((family, style)) && m.family@ == family@ && m.style == style
}

/// Whether `lookups` are the ones the bridge makes for `face` on a
/// collection answering to `names`: a face is looked up only when it
/// requests a family, a requested face goes unlooked-up only after an
/// earlier face failed, and a lookup that resolved names a known family and
/// was queried for the face's own request.
pub open spec fn looked_up(config: FontConfig, names: Set<Seq<char>>, lookups: FaceLookups, face: FontFace) -> bool {
    &&& lookup_of(lookups, face) is Some ==> face_request(config, face) is Some
    &&& (face_request(config, face) is Some && lookup_of(lookups, face) is None) ==> (first_failing(config, lookups) matches Some(
        f,
    ) && face_rank(f) < face_rank(face))
    &&& lookup_of(lookups, face) matches Some(Ok(_)) ==> family_known(config, face, names)
    &&& lookup_of(lookups, face) matches Some(Ok(m)) ==> matches_request(config, face, m)
}

/// Assembles the bridge outcome from the faces' lookups (see
/// `bridged_from`).
pub fn assemble_font_bridge(
    config: &FontConfig,
    bundled: &BundledFaces,
    lookups: FaceLookups,
) -> (r: Result<FontBridge, FontFamilyMissing>)
    ensures
        bridged_from(*config, *bundled, lookups, r),
{
    let none = config.normal.family.is_none() && config.bold.family.is_none() && config.italic.family.is_none()
        && config.bold_italic.family.is_none();
    if none {
        return Ok(FontBridge { faces: None, ui_font: UiFont::Bundled });
    }
    let FaceLookups { regular: lr, bold: lb, italic: li, bold_italic: lbi } = lookups;
    let regular = match assemble_face(config, FontFace::Regular, &bundled.regular, lr) {
        Ok(f) => f,
        Err(e) => return Err(e),
    };
    let bold = match assemble_face(config, FontFace::Bold, &bundled.bold, lb) {
        Ok(f) => f,
        Err(e) => return Err(e),
    };
    let italic = match assemble_face(config, FontFace::Italic, &bundled.italic, li) {
        Ok(f) => f,
        Err(e) => return Err(e),
    };
    let bold_italic = match assemble_face(config, FontFace::BoldItalic, &bundled.bold_italic, lbi) {
        Ok(f) => f,
        Err(e) => return Err(e),
    };
    let ui_font = match &config.normal.family {
        Some(family) => UiFont::Family(family.clone()),
        None => UiFont::Bundled,
    };
    Ok(FontBridge { faces: Some(FaceSet { regular, bold, italic, bold_italic }), ui_font })
}

/// One face from its lookup: the bundled bytes when it requests no family,
/// else the lookup's bytes and index, or the missing family.
fn assemble_face(config: &FontConfig, face: FontFace, bundled: &Vec<u8>, lookup: FaceLookup) -> (r: Result<
    ResolvedFace,
    FontFamilyMissing,
>)
    ensures
        match face_request(*config, face) {
            None => r matches Ok(f) && f.bytes@ == bundled@ && f.index == 0 && !f.from_family,
            Some((family, _)) => match lookup {
                Some(Ok(m)) => r matches Ok(f) && f.bytes@ == m.bytes@ && f.index == m.index && f.from_family,
                _ => r matches Err(e) && e.face == face && e.family == family,
            },
        },
{
    match request_for(config, face) {
        None => Ok(ResolvedFace::bundled(bundled.as_slice())),
        Some((family, _)) => match lookup {
            Some(Ok(m)) => Ok(ResolvedFace { bytes: m.bytes, index: m.index, from_family: true }),
            _ => Err(FontFamilyMissing { face, family }),
        },
    }
}

/// Looks one face's requested family up, if it requests one.
fn look_up_face(
    config: &FontConfig,
    face: FontFace,
    collection: &mut Collection,
    cache: &mut SourceCache,
) -> (r: FaceLookup)
    ensures
        r is Some <==> face_request(*config, face) is Some,
        r matches Some(Ok(_)) ==> family_known(*config, face, known_family_names(*old(collection))),
        r matches Some(Ok(m)) ==> matches_request(*config, face, m),
        known_family_names(*final(collection)) == known_family_names(*old(collection)),
{
    match request_for(config, face) {
        None => None,
        Some((family, style)) => Some(resolve_configured_face(collection, cache, family.as_str(), style)),
    }
}

/// Bridges the font configuration to the terminal's faces and the UI font.
/// With no family configured the bundled fonts stay and the UI uses the
/// bundled regular face. Otherwise each face requesting a family (see
/// `face_request`) is looked up in turn, Regular, Bold, Italic, BoldItalic,
/// stopping at the first that fails, and the outcome is assembled from
/// those lookups (see `assemble_font_bridge`): a face with no family keeps
/// its bundled bytes; one whose family is missing from the collection is an
/// error naming the face and family (startup cannot go on); and the UI font
/// is the regular face's family when it has one. Success needs every
/// requested family to be one the collection answers to; an unknown regular
/// family (looked up first) is the error.
pub fn bridge_font_config(
    config: &FontConfig,
    bundled: &BundledFaces,
    collection: &mut Collection,
    cache: &mut SourceCache,
) -> (r: Result<FontBridge, FontFamilyMissing>)
    ensures
        no_family(*config) ==> r == Ok::<FontBridge, FontFamilyMissing>(FontBridge { faces: None, ui_font: UiFont::Bundled }),
        exists|lookups: FaceLookups|
            #![trigger bridged_from(*config, *bundled, lookups, r)]
            {
                let names = known_family_names(*old(collection));
                &&& looked_up(*config, names, lookups, FontFace::Regular)
                &&& looked_up(*config, names, lookups, FontFace::Bold)
                &&& looked_up(*config, names, lookups, FontFace::Italic)
                &&& looked_up(*config, names, lookups, FontFace::BoldItalic)
                &&& bridged_from(*config, *bundled, lookups, r)
            },
        r is Ok ==> {
            let names = known_family_names(*old(collection));
            &&& family_known(*config, FontFace::Regular, names)
            &&& family_known(*config, FontFace::Bold, names)
            &&& family_known(*config, FontFace::Italic, names)
            &&& family_known(*config, FontFace::BoldItalic, names)
        },
        !family_known(*config, FontFace::Regular, known_family_names(*old(collection))) ==> (r matches Err(e)
            && e.face == FontFace::Regular),
{
    let ghost names = known_family_names(*old(collection));
    let regular = look_up_face(config, FontFace::Regular, collection, cache);
    let failed = !matches!(regular, None | Some(Ok(_)));
    let bold = if failed { None } else { look_up_face(config, FontFace::Bold, collection, cache) };
    let failed = failed || !matches!(bold, None | Some(Ok(_)));
    let italic = if failed { None } else { look_up_face(config, FontFace::Italic, collection, cache) };
    let failed = failed || !matches!(italic, None | Some(Ok(_)));
    let bold_italic = if failed { None } else { look_up_face(config, FontFace::BoldItalic, collection, cache) };
    let lookups = FaceLookups { regular, bold, italic, bold_italic };
    let r = assemble_font_bridge(config, bundled, lookups);
    proof {
        assert(looked_up(*config, names, lookups, FontFace::Regular));
        assert(looked_up(*config, names, lookups, FontFace::Bold));
        assert(looked_up(*config, names, lookups, FontFace::Italic));
        assert(looked_up(*config, names, lookups, FontFace::BoldItalic));
    }
    r
}

/// A script whose fallback chain takes the CJK fallback family.
#[derive(Debug, Clone, Copy, PartialEq, Eq, Structural)]
pub enum FallbackScript {
    /// ISO 15924 `Hani`.
    Han,
    /// ISO 15924 `Hira`.
    Hiragana,
    /// ISO 15924 `Kana`.
    Katakana,
}

/// The ISO 15924 tag of a script as a big-endian integer.
pub open spec fn script_tag(script: FallbackScript) -> u32 {
    match script {
        FallbackScript::Han => 0x4861_6e69,
        FallbackScript::Hiragana => 0x4869_7261,
        FallbackScript::Katakana => 0x4b61_6e61,
    }
}

/// The default fallback chains a collection holds: for each script (by its
/// tag, see `script_tag`) that has one, the families tried in order for
/// text in that script with no language given. Like `known_family_names`,
/// every contract over it assumes a collection without a shared store.
pub uninterp spec fn default_fallbacks(collection: Collection) -> Map<u32, Seq<FamilyId>>;

/// The default fallback chain of the script tagged `tag`, empty when there
/// is none.
pub open spec fn chain(fallbacks: Map<u32, Seq<FamilyId>>, tag: u32) -> Seq<FamilyId> {
    if fallbacks.dom().contains(tag) {
        fallbacks[tag]
    } else {
        Seq::empty()
    }
}

/// `fallbacks` with `families` appended to the default chain of `script`.
pub open spec fn appended(
    fallbacks: Map<u32, Seq<FamilyId>>,
    script: FallbackScript,
    families: Seq<FamilyId>,
) -> Map<u32, Seq<FamilyId>> {
    fallbacks.insert(script_tag(script), chain(fallbacks, script_tag(script)) + families)
}

/// The family names the fonts in `data` carry (each font's typographic
/// family name, else its family name, for every font that parses), in every
/// spelling the collection's name lookup accepts for them. A function of
/// the bytes alone.
pub uninterp spec fn font_family_names(data: Seq<u8>) -> Set<Seq<char>>;

/// Registers font data in the collection (`Collection::register_fonts`, no
/// info override) and returns the ids of the families it registered: the
/// collection then also answers to the data's family names, and some id
/// comes back exactly when the data carries a family name. It leaves the
/// fallback chains as they were. Which ids come back is not stated: they
/// depend on what the collection held before, and their order on a hash
/// map's.
#[verifier::external_body]
fn register_fonts(collection: &mut Collection, data: Vec<u8>) -> (r: Vec<FamilyId>)
    ensures
        default_fallbacks(*final(collection)) == default_fallbacks(*old(collection)),
        known_family_names(*final(collection)) == known_family_names(*old(collection)).union(font_family_names(data@)),
        (r@.len() == 0) == (font_family_names(data@) == Set::<Seq<char>>::empty()),
{
    collection.register_fonts(fontique::Blob::from(data), None).into_iter().map(|(id, _)| id).collect()
}

/// Appends `families`, in order, to the default fallback chain of `script`
/// (`Collection::append_fallbacks` with the bare script as key, which is
/// always tracked, so it returns `true`); the other chains and the family
/// names stay.
#[verifier::external_body]
fn append_fallbacks(collection: &mut Collection, script: FallbackScript, families: &Vec<FamilyId>) -> (r: bool)
    ensures
        r,
        default_fallbacks(*final(collection)) == appended(default_fallbacks(*old(collection)), script, families@),
        known_family_names(*final(collection)) == known_family_names(*old(collection)),
{
    let script = match script {
        FallbackScript::Han => fontique::Script::from_bytes(*b"Hani"),
        FallbackScript::Hiragana => fontique::Script::from_bytes(*b"Hira"),
        FallbackScript::Katakana => fontique::Script::from_bytes(*b"Kana"),
    };
    collection.append_fallbacks(script, families.iter().copied())
}

/// Registers the bundled CJK fallback font in the collection and appends
/// the families it registered (returned) to the Han, Hiragana and Katakana
/// default fallback chains, in that order, making it reachable for text
/// whose primary font lacks CJK coverage; every other chain stays. The
/// collection then also answers to the font's family names, and the ids are
/// empty exactly when the data carries none. Which ids the registration
/// gives is not stated (see `register_fonts`).
pub fn register_cjk_fallback(collection: &mut Collection, fallback: Vec<u8>) -> (r: Vec<FamilyId>)
    ensures
        default_fallbacks(*final(collection)) == appended(
            appended(appended(default_fallbacks(*old(collection)), FallbackScript::Han, r@), FallbackScript::Hiragana, r@),
            FallbackScript::Katakana,
            r@,
        ),
        known_family_names(*final(collection)) == known_family_names(*old(collection)).union(font_family_names(fallback@)),
        (r@.len() == 0) == (font_family_names(fallback@) == Set::<Seq<char>>::empty()),
{
    let ids = register_fonts(collection, fallback);
    let _ = append_fallbacks(collection, FallbackScript::Han, &ids);
    let _ = append_fallbacks(collection, FallbackScript::Hiragana, &ids);
    let _ = append_fallbacks(collection, FallbackScript::Katakana, &ids);
    ids
}

} // verus!
