use gpui_ios::font::{
    Font, FontFallbacks, FontFeature, FontFeatures, FontId, FontStyle, FontWeight,
};
use gpui_ios::font_ids::FontIds;
use gpui_ios::text_system::{
    ct_symbolic_traits, CtFont, FontError, FontFile, IosTextSystem, CT_FONT_BOLD_TRAIT,
    CT_FONT_ITALIC_TRAIT,
};

fn ct_font(handle: u32, family: &str, name: Option<&str>, traits: u32) -> CtFont<u32> {
    CtFont {
        ct_font: handle,
        postscript_name: name.map(str::to_owned),
        family_name: family.to_owned(),
        symbolic_traits: traits,
    }
}

fn file(font: CtFont<u32>) -> FontFile<u32> {
    FontFile { data: vec![1, 2, 3], font: Some(font) }
}

fn font(family: &str, weight: f32, style: FontStyle) -> Font {
    Font {
        family: family.to_owned(),
        features: FontFeatures { features: Vec::new() },
        fallbacks: None,
        weight: FontWeight { bits: weight.to_bits() },
        style,
    }
}

/// Lilex in its four faces: regular, bold, italic, bold italic.
fn four_faces() -> IosTextSystem<u32> {
    let mut system = IosTextSystem::new();
    system.add_fonts(vec![
        file(ct_font(0, "Lilex", Some("Lilex-Regular"), 0)),
        file(ct_font(1, "Lilex", Some("Lilex-Bold"), CT_FONT_BOLD_TRAIT)),
        file(ct_font(2, "Lilex", Some("Lilex-Italic"), CT_FONT_ITALIC_TRAIT)),
        file(ct_font(3, "Lilex", Some("Lilex-BoldItalic"), CT_FONT_BOLD_TRAIT | CT_FONT_ITALIC_TRAIT)),
    ]);
    system
}

#[test]
fn new_system_has_no_fonts() {
    for system in [IosTextSystem::<u32>::new(), IosTextSystem::default()] {
        assert!(!system.has_font(FontId(0)));
        assert!(system.all_font_names(&Vec::new()).is_empty());
    }
}

#[test]
fn files_without_a_font_are_passed_over() {
    let mut system = IosTextSystem::new();
    system.add_fonts(vec![
        file(ct_font(10, "A", Some("A-Regular"), 0)),
        FontFile { data: vec![9], font: None },
        file(ct_font(11, "B", None, 5)),
    ]);
    assert_eq!(system.font(FontId(0)).ct_font, 10);
    assert_eq!(system.font(FontId(0)).postscript_name, "A-Regular");
    assert_eq!(system.font(FontId(1)).ct_font, 11);
    assert_eq!(system.font(FontId(1)).postscript_name, "");
    assert_eq!(system.font(FontId(1)).family_name, "B");
    assert_eq!(system.font(FontId(1)).symbolic_traits, 5);
    assert!(!system.has_font(FontId(2)));
}

#[test]
fn added_fonts_keep_their_places() {
    let mut system = four_faces();
    system.add_fonts(vec![file(ct_font(20, "Other", None, 0))]);
    for id in 0..4 {
        assert_eq!(system.font(FontId(id)).ct_font, id as u32);
    }
    assert_eq!(system.font(FontId(4)).ct_font, 20);
}

#[test]
fn family_is_found_in_any_case() {
    let mut system = four_faces();
    assert_eq!(system.load_family("lILEX", None).unwrap().to_positions(), [0, 1, 2, 3]);
    assert!(system.load_family("Lilexx", None).is_err());
}

#[test]
fn only_ascii_letters_fold() {
    let mut system = IosTextSystem::new();
    system.add_fonts(vec![file(ct_font(0, "\u{00C4}rial", None, 0))]);
    assert!(system.load_family("\u{00E4}rial", None).is_err());
    assert_eq!(system.load_family("\u{00C4}RIAL", None).unwrap().to_positions(), [0]);
}

#[test]
fn families_of_more_than_four_faces_are_whole() {
    let mut system = four_faces();
    system.add_fonts(vec![
        file(ct_font(4, "Other", None, 0)),
        file(ct_font(5, "Lilex", None, 0)),
        file(ct_font(6, "Lilex", None, 0)),
    ]);
    assert_eq!(system.load_family("Lilex", None).unwrap().to_positions(), [0, 1, 2, 3, 5, 6]);
}

#[test]
fn family_of_the_system_is_appended() {
    let mut system = four_faces();
    let ids = system.load_family("Menlo", Some(ct_font(40, "Menlo", Some("Menlo-Regular"), 0)));
    assert_eq!(ids.unwrap().to_positions(), [4]);
    assert_eq!(system.font(FontId(4)).postscript_name, "Menlo-Regular");
}

#[test]
fn unnamed_font_of_the_system_goes_by_its_family() {
    let mut system = IosTextSystem::new();
    system.load_family("Menlo", Some(ct_font(40, "Menlo", None, 0))).unwrap();
    assert_eq!(system.font(FontId(0)).postscript_name, "Menlo");
}

#[test]
fn missing_family_is_an_error() {
    let mut system = four_faces();
    let error = system.load_family("Menlo", None).err();
    assert_eq!(error, Some(FontError::FamilyNotFound { family: "Menlo".to_owned() }));
    assert_eq!(
        system.font_id(&font("Menlo", 400.0, FontStyle::Normal), None),
        Err(FontError::FamilyNotFound { family: "Menlo".to_owned() })
    );
    assert!(!system.has_font(FontId(4)));
}

#[test]
fn no_candidates_is_an_error() {
    let system = four_faces();
    assert_eq!(
        system.select_font(&font("Lilex", 400.0, FontStyle::Normal), &FontIds::from_positions(&[])),
        Err(FontError::NoFontsFound { family: "Lilex".to_owned() })
    );
}

#[test]
fn font_errors_have_messages() {
    let family = "Menlo".to_owned();
    assert_eq!(
        FontError::NoFontsFound { family: family.clone() }.message(),
        "no fonts found for family 'Menlo'"
    );
    assert_eq!(FontError::FamilyNotFound { family }.message(), "font family 'Menlo' not found");
}

#[test]
fn face_follows_weight_and_style() {
    let mut system = four_faces();
    for (weight, style, expected) in [
        (400.0, FontStyle::Normal, 0),
        (700.0, FontStyle::Normal, 1),
        (400.0, FontStyle::Italic, 2),
        (900.0, FontStyle::Italic, 3),
        (699.0, FontStyle::Oblique, 0),
    ] {
        assert_eq!(system.font_id(&font("Lilex", weight, style), None), Ok(FontId(expected)));
    }
}

#[test]
fn weight_counts_more_than_style() {
    let mut system = IosTextSystem::new();
    system.add_fonts(vec![
        file(ct_font(0, "F", None, CT_FONT_ITALIC_TRAIT)),
        file(ct_font(1, "F", None, CT_FONT_BOLD_TRAIT)),
    ]);
    let id = system.font_id(&font("F", 700.0, FontStyle::Italic), None);
    assert_eq!(id, Ok(FontId(1)));
}

#[test]
fn first_of_equals_wins() {
    let mut system = IosTextSystem::new();
    system.add_fonts(vec![
        file(ct_font(0, "F", None, CT_FONT_BOLD_TRAIT)),
        file(ct_font(1, "F", None, 0)),
        file(ct_font(2, "F", None, 0)),
    ]);
    let wanted = font("F", 400.0, FontStyle::Normal);
    assert_eq!(system.font_id(&wanted, None), Ok(FontId(1)));
    assert_eq!(
        system.select_font(&wanted, &FontIds::from_positions(&[2, 1])),
        Ok(FontId(2))
    );
}

#[test]
fn resolved_font_is_remembered() {
    let mut system = four_faces();
    let wanted = font("Lilex", 700.0, FontStyle::Normal);
    assert_eq!(system.selected_font(&wanted), None);
    assert_eq!(system.resolve_font(&wanted, None), Ok(FontId(1)));
    assert_eq!(system.selected_font(&wanted), Some(FontId(1)));
    assert_eq!(system.resolve_font(&wanted, None), Ok(FontId(1)));
    assert_eq!(system.font_id(&wanted, None), Ok(FontId(1)));
    assert_eq!(system.selected_font(&font("Lilex", 700.0, FontStyle::Italic)), None);
}

#[test]
fn known_family_stays_as_it_was() {
    let mut system = IosTextSystem::new();
    let wanted = font("Menlo", 700.0, FontStyle::Normal);
    assert!(system.must_load_family(&wanted));
    assert_eq!(system.font_id(&wanted, Some(ct_font(1, "Menlo", None, 0))), Ok(FontId(0)));
    assert!(!system.must_load_family(&wanted));
    system.add_fonts(vec![file(ct_font(2, "Menlo", None, CT_FONT_BOLD_TRAIT))]);
    assert_eq!(system.resolve_font(&wanted, None), Ok(FontId(0)));
}

#[test]
fn family_is_asked_for_anew_with_other_features() {
    let mut system = IosTextSystem::new();
    let plain = font("Menlo", 700.0, FontStyle::Normal);
    assert_eq!(system.font_id(&plain, Some(ct_font(1, "Menlo", None, 0))), Ok(FontId(0)));
    system.add_fonts(vec![file(ct_font(2, "Menlo", None, CT_FONT_BOLD_TRAIT))]);
    let mut ligatures = plain.clone();
    ligatures.features.features.push(FontFeature { tag: "calt".to_owned(), value: 0 });
    assert_eq!(system.font_id(&ligatures, None), Ok(FontId(1)));
    let mut fallbacks = plain.clone();
    fallbacks.fallbacks = Some(FontFallbacks { families: vec!["Lilex".to_owned()] });
    assert_eq!(system.font_id(&fallbacks, None), Ok(FontId(1)));
    assert_eq!(system.font_id(&plain, None), Ok(FontId(0)));
}

#[test]
fn font_of_the_system_is_ignored_where_the_family_is_known() {
    let mut system = four_faces();
    let wanted = font("Lilex", 400.0, FontStyle::Normal);
    assert!(!system.must_load_family(&wanted));
    let id = system.font_id(&wanted, Some(ct_font(99, "Lilex", None, 0)));
    assert_eq!(id, Ok(FontId(0)));
    assert!(!system.has_font(FontId(4)));
}

#[test]
fn names_are_sorted_and_occur_once() {
    let system = four_faces();
    let descriptors = vec![
        Some("Menlo".to_owned()),
        None,
        Some("Avenir".to_owned()),
        Some("Menlo".to_owned()),
        Some("Lilex-Bold".to_owned()),
    ];
    assert_eq!(
        system.all_font_names(&descriptors),
        ["Avenir", "Lilex-Bold", "Lilex-BoldItalic", "Lilex-Italic", "Lilex-Regular", "Menlo"]
    );
}

#[test]
fn bold_starts_at_seven_hundred() {
    let below = f32::from_bits(700.0f32.to_bits() - 1);
    for (weight, bold) in [
        (700.0, true),
        (below, false),
        (701.0, true),
        (400.0, false),
        (0.0, false),
        (-700.0, false),
        (f32::INFINITY, true),
        (f32::NEG_INFINITY, false),
        (f32::NAN, false),
        (f32::MIN_POSITIVE, false),
        (f32::MAX, true),
    ] {
        assert_eq!(FontWeight { bits: weight.to_bits() }.is_bold(), bold);
        assert_eq!(weight >= 700.0, bold);
    }
}

#[test]
fn trait_bits_are_reinterpreted() {
    for number in [0, 1, 3, i32::MAX, -1, i32::MIN] {
        assert_eq!(ct_symbolic_traits(Some(number)), number as u32);
    }
    assert_eq!(ct_symbolic_traits(None), 0);
}

#[test]
fn position_lists_keep_their_order() {
    for positions in [&[][..], &[7], &[3, 1, 2, 1], &[0, 1, 2, 3, 4, 5, 6]] {
        assert_eq!(FontIds::from_positions(positions).to_positions(), positions);
    }
}
