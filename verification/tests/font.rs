use fontique::{Collection, CollectionOptions, SourceCache};
use orzma::font::{
    assemble_font_bridge, bridge_font_config, face_attributes, register_cjk_fallback, request_for,
    FaceLookups, FaceMatch, FamilyNotFound, FontFamilyMissing,
    resolve_configured_face, BundledFaces, FaceConfig, FaceStyle, FontBridge, FontConfig, FontFace,
    FontSlant, ResolvedFace, UiFont,
};

fn deterministic_collection() -> (Collection, SourceCache) {
    (
        Collection::new(CollectionOptions { system_fonts: false, ..Default::default() }),
        SourceCache::new(Default::default()),
    )
}

fn no_face() -> FaceConfig {
    FaceConfig { family: None, style: None }
}

fn named(family: &str) -> FaceConfig {
    FaceConfig { family: Some(family.into()), style: None }
}

fn config(normal: FaceConfig, bold: FaceConfig) -> FontConfig {
    FontConfig { normal, bold, italic: no_face(), bold_italic: no_face() }
}

fn bundled() -> BundledFaces {
    BundledFaces { regular: vec![1], bold: vec![2], italic: vec![3], bold_italic: vec![4] }
}

#[test]
fn default_config_keeps_bundled_jbm_in_terminal_fonts() {
    let (mut c, mut s) = deterministic_collection();
    let bridge = bridge_font_config(&config(no_face(), no_face()), &bundled(), &mut c, &mut s).unwrap();
    assert_eq!(bridge.faces, None, "with no family configured the bundled faces stay");
}

#[test]
fn default_config_inserts_terminal_ui_font_with_strong_handle() {
    let (mut c, mut s) = deterministic_collection();
    let bridge = bridge_font_config(&config(no_face(), no_face()), &bundled(), &mut c, &mut s).unwrap();
    assert_eq!(bridge, FontBridge { faces: None, ui_font: UiFont::Bundled });
}

#[test]
#[should_panic(expected = "was not found")]
fn configured_absent_family_aborts_startup() {
    let (mut c, mut s) = deterministic_collection();
    if let Err(e) = bridge_font_config(&config(named("no-such-family-8b3d2"), no_face()), &bundled(), &mut c, &mut s) {
        panic!("font family {:?} configured for the {:?} face was not found", e.family, e.face);
    }
}

#[test]
fn a_missing_family_names_its_face() {
    let (mut c, mut s) = deterministic_collection();
    let err = bridge_font_config(&config(no_face(), named("no-such-bold")), &bundled(), &mut c, &mut s).unwrap_err();
    assert_eq!(err.face, FontFace::Bold);
    assert_eq!(err.family, "no-such-bold");
}

#[test]
fn attributes_differ_by_face() {
    assert_eq!(face_attributes(FontFace::Regular).weight, 400);
    assert_eq!(face_attributes(FontFace::Bold).weight, 700);
    assert_eq!(face_attributes(FontFace::Italic).slant, FontSlant::Italic);
    assert_eq!(face_attributes(FontFace::Regular).slant, FontSlant::Normal);
    assert_eq!(face_attributes(FontFace::BoldItalic), FaceStyle { weight: 700, slant: FontSlant::Italic });
}

#[test]
fn attributes_of_maps_weight_and_slant() {
    let style = FaceStyle { weight: 600, slant: FontSlant::Italic };
    let cfg = FontConfig {
        normal: FaceConfig { family: Some("Mono".into()), style: Some(style) },
        bold: no_face(),
        italic: no_face(),
        bold_italic: no_face(),
    };
    assert_eq!(request_for(&cfg, FontFace::Regular), Some(("Mono".to_string(), style)));
}

#[test]
fn each_face_falls_back_to_the_regular_family_at_its_own_style() {
    let cfg = config(named("Mono"), named("MonoBold"));
    assert_eq!(request_for(&cfg, FontFace::Bold), Some(("MonoBold".to_string(), FaceStyle { weight: 700, slant: FontSlant::Normal })));
    assert_eq!(request_for(&cfg, FontFace::Italic), Some(("Mono".to_string(), FaceStyle { weight: 400, slant: FontSlant::Italic })));
    assert_eq!(request_for(&config(no_face(), named("OnlyBold")), FontFace::Italic), None);
}

#[test]
fn resolve_configured_face_errors_on_absent_family() {
    let (mut c, mut s) = deterministic_collection();
    let r = resolve_configured_face(&mut c, &mut s, "no-such-family-4d1", FaceStyle { weight: 400, slant: FontSlant::Normal });
    assert!(r.is_err());
}

#[test]
fn absent_family_returns_none() {
    let (mut c, mut s) = deterministic_collection();
    assert!(resolve_configured_face(&mut c, &mut s, "no-such-family-9c2f1a", face_attributes(FontFace::Regular)).is_err());
}

#[test]
fn bundled_face_keeps_the_bytes_at_index_zero() {
    let f = ResolvedFace::bundled(&[9, 8, 7]);
    assert_eq!(f, ResolvedFace { bytes: vec![9, 8, 7], index: 0, from_family: false });
}

#[test]
fn registering_unparseable_data_registers_no_family() {
    let (mut c, _) = deterministic_collection();
    assert!(register_cjk_fallback(&mut c, vec![0, 1, 2, 3]).is_empty());
}

/// The bytes of an installed DejaVu Sans, looked up through a collection
/// that loads the machine's fonts.
fn installed_dejavu_sans() -> Option<Vec<u8>> {
    let mut system = Collection::new(CollectionOptions { system_fonts: true, ..Default::default() });
    let mut cache = SourceCache::new(Default::default());
    system.family_id("DejaVu Sans")?;
    let mut query = system.query(&mut cache);
    query.set_families([fontique::QueryFamily::Named("DejaVu Sans")]);
    query.first_available_font().map(|font| font.blob.as_ref().to_vec())
}

fn chain_of(c: &mut Collection, tag: &[u8; 4]) -> Vec<fontique::FamilyId> {
    c.fallback_families(fontique::Script::from_bytes(*tag)).collect()
}

#[test]
fn registering_a_font_appends_its_families_to_the_cjk_chains() {
    let bytes = installed_dejavu_sans().expect("DejaVu Sans is installed on this machine");
    let (mut c, _) = deterministic_collection();
    let ids = register_cjk_fallback(&mut c, bytes);
    assert!(!ids.is_empty());
    assert_eq!(chain_of(&mut c, b"Hani"), ids);
    assert_eq!(chain_of(&mut c, b"Hira"), ids);
    assert_eq!(chain_of(&mut c, b"Kana"), ids);
    assert!(chain_of(&mut c, b"Latn").is_empty(), "other chains stay");
}

#[test]
fn registering_twice_appends_after_the_earlier_families() {
    let bytes = installed_dejavu_sans().expect("DejaVu Sans is installed on this machine");
    let (mut c, _) = deterministic_collection();
    let first = register_cjk_fallback(&mut c, bytes.clone());
    let second = register_cjk_fallback(&mut c, bytes);
    let expected: Vec<_> = first.iter().chain(second.iter()).copied().collect();
    assert_eq!(chain_of(&mut c, b"Hani"), expected);
}

#[test]
fn an_installed_family_resolves_to_its_bytes() {
    let mut c = Collection::new(CollectionOptions { system_fonts: true, ..Default::default() });
    let mut s = SourceCache::new(Default::default());
    let m = resolve_configured_face(&mut c, &mut s, "DejaVu Sans", face_attributes(FontFace::Regular))
        .expect("DejaVu Sans is installed on this machine");
    let bytes = m.bytes;
    assert!(!bytes.is_empty());
}

/// A collection without system fonts holding one family registered from
/// known font bytes, and that family's name.
fn collection_with_registered_family() -> (Collection, SourceCache, String) {
    let bytes = installed_dejavu_sans().expect("DejaVu Sans is installed on this machine");
    let (mut c, s) = deterministic_collection();
    let registered = c.register_fonts(fontique::Blob::from(bytes), None);
    let id = registered.first().expect("at least one family").0;
    let family = c.family_name(id).expect("family name").to_string();
    (c, s, family)
}

#[test]
fn registered_family_resolves_to_bytes() {
    let (mut c, mut s, family) = collection_with_registered_family();
    let m = resolve_configured_face(&mut c, &mut s, &family, face_attributes(FontFace::Regular))
        .expect("registered family must resolve");
    let bytes = m.bytes;
    assert!(!bytes.is_empty());
}

#[test]
fn resolve_configured_face_returns_bytes_for_registered_family() {
    let (mut c, mut s, family) = collection_with_registered_family();
    let m = resolve_configured_face(&mut c, &mut s, &family, FaceStyle { weight: 400, slant: FontSlant::Normal })
        .expect("registered family resolves");
    assert_eq!((m.family.as_str(), m.style), (family.as_str(), FaceStyle { weight: 400, slant: FontSlant::Normal }));
    let bytes = m.bytes;
    assert!(!bytes.is_empty());
}

#[test]
fn an_unknown_regular_family_stops_the_bridge() {
    let (mut c, mut s) = deterministic_collection();
    let cfg = config(named("no-such-family-8b3d2"), no_face());
    let err = bridge_font_config(&cfg, &bundled(), &mut c, &mut s).unwrap_err();
    assert_eq!(err.face, FontFace::Regular);
    assert_eq!(err.family, "no-such-family-8b3d2");
}

fn found(bytes: Vec<u8>, index: u32) -> FaceMatch {
    FaceMatch { bytes, index, family: "Mono".into(), style: face_attributes(FontFace::Regular) }
}

#[test]
fn assembly_takes_each_face_from_its_own_lookup() {
    let cfg = config(named("Mono"), named("MonoBold"));
    let lookups = FaceLookups {
        regular: Some(Ok(found(vec![10, 11], 0))),
        bold: Some(Ok(found(vec![20], 2))),
        italic: Some(Ok(found(vec![30], 1))),
        bold_italic: Some(Ok(found(vec![40], 3))),
    };
    let bridge = assemble_font_bridge(&cfg, &bundled(), lookups).unwrap();
    let faces = bridge.faces.expect("faces are installed");
    assert_eq!(faces.regular, ResolvedFace { bytes: vec![10, 11], index: 0, from_family: true });
    assert_eq!(faces.bold, ResolvedFace { bytes: vec![20], index: 2, from_family: true });
    assert_eq!(faces.italic, ResolvedFace { bytes: vec![30], index: 1, from_family: true });
    assert_eq!(faces.bold_italic, ResolvedFace { bytes: vec![40], index: 3, from_family: true });
    assert_eq!(bridge.ui_font, UiFont::Family("Mono".into()));
}

#[test]
fn assembly_keeps_bundled_bytes_for_a_face_without_a_family() {
    let cfg = config(no_face(), named("MonoBold"));
    let lookups = FaceLookups { regular: None, bold: Some(Ok(found(vec![20], 0))), italic: None, bold_italic: None };
    let bridge = assemble_font_bridge(&cfg, &bundled(), lookups).unwrap();
    let faces = bridge.faces.expect("faces are installed");
    assert_eq!(faces.regular, ResolvedFace { bytes: vec![1], index: 0, from_family: false });
    assert_eq!(faces.bold, ResolvedFace { bytes: vec![20], index: 0, from_family: true });
    assert_eq!(bridge.ui_font, UiFont::Bundled);
}

#[test]
fn assembly_reports_the_first_failing_face() {
    let cfg = config(named("Mono"), named("MonoBold"));
    let lookups = FaceLookups {
        regular: Some(Ok(found(vec![10], 0))),
        bold: Some(Err(FamilyNotFound)),
        italic: Some(Err(FamilyNotFound)),
        bold_italic: None,
    };
    assert_eq!(
        assemble_font_bridge(&cfg, &bundled(), lookups),
        Err(FontFamilyMissing { face: FontFace::Bold, family: "MonoBold".into() })
    );
}

#[test]
fn registering_a_font_makes_its_family_known() {
    let bytes = installed_dejavu_sans().expect("DejaVu Sans is installed on this machine");
    let (mut c, _) = deterministic_collection();
    assert!(c.family_id("DejaVu Sans").is_none());
    register_cjk_fallback(&mut c, bytes);
    assert!(c.family_id("DejaVu Sans").is_some());
}
