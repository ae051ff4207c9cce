use people_db::sport::Sport;
use people_db::text::{decimal_string, normalize, same_text};

#[test]
fn parse_ignores_case_and_outer_white_space() {
    assert_eq!(Sport::from_string("BASEBALL "), Sport::Baseball);
    assert_eq!(Sport::from_string(" baseball"), Sport::Baseball);
    assert_eq!(Sport::from_string("baseball"), Sport::Baseball);
    assert_eq!(Sport::from_string("\t\n  Ice Skating? no: SKATING \r\n"), Sport::Other("ice skating? no: skating".to_string()));
}

#[test]
fn parse_is_total() {
    assert_eq!(Sport::from_string(""), Sport::Other(String::new()));
    assert_eq!(Sport::from_string("   "), Sport::Other(String::new()));
    assert_eq!(Sport::from_string("  ÉCOLE de Pétanque\u{a0}"), Sport::Other("école de pétanque".to_string()));
    assert_eq!(Sport::from_string("卓球"), Sport::Other("卓球".to_string()));
    assert_eq!(Sport::from_string("a,b\"c\nd"), Sport::Other("a,b\"c\nd".to_string()));
    assert_eq!(Sport::from_string("\u{1F3C0}"), Sport::Other("\u{1F3C0}".to_string()));
}

#[test]
fn trimming_alone_is_not_enough_nor_lower_casing_alone() {
    assert_eq!(Sport::from_string("  golf  "), Sport::Golf);
    assert_eq!(Sport::from_string("GOLF"), Sport::Golf);
    assert_eq!(Sport::from_string("  GoLf\t"), Sport::Golf);
    assert_eq!(normalize("  Mixed Case  "), "mixed case");
    assert_eq!(normalize("plain"), "plain");
}

#[test]
fn water_polo_has_two_spellings() {
    let a = Sport::from_string("water_polo");
    let b = Sport::from_string("water polo");
    let c = Sport::from_string("Water Polo");
    assert_eq!(a, Sport::WaterPolo);
    assert_eq!(a, b);
    assert_eq!(b, c);
    assert_eq!(a.display(), "water polo");
    assert_eq!(Sport::from_string("WATER_POLO").display(), "water polo");
    assert_eq!(Sport::from_string("waterpolo"), Sport::Other("waterpolo".to_string()));
}

#[test]
fn unknown_sport_falls_back_to_its_text() {
    let s = Sport::from_string("underwater hockey");
    assert_eq!(s, Sport::Other("underwater hockey".to_string()));
    assert_eq!(s.display(), "underwater hockey");
    assert_eq!(s.emoji(), "");
    let t = Sport::from_string("  Underwater HOCKEY ");
    assert_eq!(t, s);
}

#[test]
fn other_sport_displays_its_text_verbatim() {
    let s = Sport::Other("Kite Flying ".to_string());
    assert_eq!(s.display(), "Kite Flying ");
    assert_eq!(s.emoji(), "");
}

#[test]
fn from_label_takes_the_label_as_it_is() {
    assert_eq!(Sport::from_label("rugby"), Sport::Rugby);
    assert_eq!(Sport::from_label("water polo"), Sport::WaterPolo);
    assert_eq!(Sport::from_label("water_polo"), Sport::WaterPolo);
    assert_eq!(Sport::from_label("Rugby"), Sport::Other("Rugby".to_string()));
    assert_eq!(Sport::from_label(" rugby"), Sport::Other(" rugby".to_string()));
    assert_eq!(Sport::from_label(""), Sport::Other(String::new()));
}

#[test]
fn known_sports_are_listed_in_order() {
    let all = Sport::all_known_sports();
    assert_eq!(all.len(), 23);
    assert_eq!(all[0], Sport::Baseball);
    assert_eq!(all[1], Sport::Soccer);
    assert_eq!(all[11], Sport::WaterPolo);
    assert_eq!(all[22], Sport::Wrestling);
    let labels: Vec<String> = all.iter().map(|s| s.display()).collect();
    assert_eq!(
        labels,
        vec![
            "baseball", "soccer", "basketball", "tennis", "golf", "hockey", "cricket", "rugby",
            "handball", "football", "volleyball", "water polo", "equestrian", "swimming",
            "running", "cycling", "skating", "skateboarding", "surfing", "skiing",
            "snowboarding", "rowing", "wrestling",
        ]
    );
    assert_eq!(Sport::all_known_sports(), all);
}

#[test]
fn every_known_sport_is_read_back_from_its_label() {
    for s in Sport::all_known_sports() {
        assert_eq!(Sport::from_string(&s.display()), s);
        assert_eq!(Sport::from_label(&s.display()), s);
        assert_eq!(Sport::from_string(&s.display().to_uppercase()), s);
    }
}

#[test]
fn every_known_sport_has_one_glyph_of_its_own() {
    let all = Sport::all_known_sports();
    for (i, s) in all.iter().enumerate() {
        assert_eq!(s.emoji().chars().count(), 1);
        for t in all.iter().skip(i + 1) {
            assert_ne!(s.emoji(), t.emoji());
            assert_ne!(s.display(), t.display());
        }
    }
    assert_eq!(Sport::Baseball.emoji(), "\u{26BE}");
    assert_eq!(Sport::Soccer.emoji(), "\u{26BD}");
    assert_eq!(Sport::Golf.emoji(), "\u{26F3}");
    assert_eq!(Sport::Tennis.emoji(), "\u{1F3BE}");
    assert_eq!(Sport::WaterPolo.emoji(), "\u{1F93D}");
    assert_eq!(Sport::Wrestling.emoji(), "\u{1F93C}");
}

#[test]
fn same_text_compares_character_by_character() {
    assert!(same_text("", ""));
    assert!(same_text("golf", "golf"));
    assert!(!same_text("golf", "gulf"));
    assert!(!same_text("golf", "golfs"));
    assert!(!same_text("é", "e"));
    assert!(same_text("卓球", "卓球"));
}

#[test]
fn decimal_numerals() {
    assert_eq!(decimal_string(0), "0");
    assert_eq!(decimal_string(7), "7");
    assert_eq!(decimal_string(10), "10");
    assert_eq!(decimal_string(4294967295), "4294967295");
    assert_eq!(decimal_string(u64::MAX), "18446744073709551615");
}
