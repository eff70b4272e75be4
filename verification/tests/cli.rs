use sefenbu::cli::{eq_ignoring_case, Cli, ColorSpace};

#[test]
fn parse_knows_the_four_color_spaces() {
    assert_eq!(ColorSpace::parse("okhsv"), Some(ColorSpace::Okhsv));
    assert_eq!(ColorSpace::parse("okhsl"), Some(ColorSpace::Okhsl));
    assert_eq!(ColorSpace::parse("hsl"), Some(ColorSpace::Hsl));
    assert_eq!(ColorSpace::parse("hsv"), Some(ColorSpace::Hsv));
}

#[test]
fn parse_ignores_the_case_of_letters() {
    assert_eq!(ColorSpace::parse("OKHSV"), Some(ColorSpace::Okhsv));
    assert_eq!(ColorSpace::parse("OkHsL"), Some(ColorSpace::Okhsl));
    assert_eq!(ColorSpace::parse("Hsl"), Some(ColorSpace::Hsl));
    assert_eq!(ColorSpace::parse("hSV"), Some(ColorSpace::Hsv));
}

#[test]
fn parse_rejects_other_names() {
    assert_eq!(ColorSpace::parse(""), None);
    assert_eq!(ColorSpace::parse("rgb"), None);
    assert_eq!(ColorSpace::parse("okhs"), None);
    assert_eq!(ColorSpace::parse("okhsvv"), None);
    assert_eq!(ColorSpace::parse(" hsv"), None);
    assert_eq!(ColorSpace::parse("hsv "), None);
    assert_eq!(ColorSpace::parse("h\u{73}\u{56}"), Some(ColorSpace::Hsv));
    assert_eq!(ColorSpace::parse("h\u{53}\u{76}"), Some(ColorSpace::Hsv));
    assert_eq!(ColorSpace::parse("h\u{33}v"), None);
    assert_eq!(ColorSpace::parse("\u{212A}hsv"), None);
    assert_eq!(ColorSpace::parse("hs\u{00F9}"), None);
    assert_eq!(ColorSpace::parse("(3,"), None);
}

#[test]
fn names_parse_back() {
    for space in [ColorSpace::Okhsv, ColorSpace::Okhsl, ColorSpace::Hsl, ColorSpace::Hsv] {
        assert_eq!(ColorSpace::parse(space.name()), Some(space));
    }
    assert_eq!(ColorSpace::Okhsv.name(), "okhsv");
    assert_eq!(ColorSpace::Okhsl.name(), "okhsl");
    assert_eq!(ColorSpace::Hsl.name(), "hsl");
    assert_eq!(ColorSpace::Hsv.name(), "hsv");
}

#[test]
fn eq_ignoring_case_compares_letter_by_letter() {
    assert!(eq_ignoring_case("", ""));
    assert!(eq_ignoring_case("abc", "ABC"));
    assert!(eq_ignoring_case("aBc", "AbC"));
    assert!(!eq_ignoring_case("abc", "abd"));
    assert!(!eq_ignoring_case("abc", "ab"));
    assert!(!eq_ignoring_case("ab", "abc"));
    assert!(eq_ignoring_case("\u{E9}", "\u{E9}"));
    assert!(!eq_ignoring_case("\u{E9}", "\u{C9}"));
    assert!(!eq_ignoring_case("@", "`"));
    assert!(!eq_ignoring_case("[", "{"));
}

#[test]
fn without_a_name_the_okhsv_space_is_taken() {
    let cli = Cli { file: String::from("image.png"), using: None };
    assert_eq!(cli.color_space().unwrap(), ColorSpace::Okhsv);
}

#[test]
fn a_known_name_selects_its_space() {
    let cli = Cli { file: String::from("image.png"), using: Some(String::from("HSL")) };
    assert_eq!(cli.color_space().unwrap(), ColorSpace::Hsl);
    assert_eq!(cli.file, "image.png");
}

#[test]
fn an_unknown_name_is_an_error_that_holds_it() {
    let cli = Cli { file: String::from("image.png"), using: Some(String::from("cmyk")) };
    let err = cli.color_space().unwrap_err();
    assert_eq!(err.value, "cmyk");
}
