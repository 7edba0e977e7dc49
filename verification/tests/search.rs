use muro_core::search::{
    int_to_decimal_string, normalize_fragment, normalize_search_text, normalize_track_search_text,
    split_artist_tokens, strip_leading_track_number, TrackSearchParts,
};

#[test]
fn normalizes_unicode_and_punctuation() {
    let value = "Bjor\u{308}k - Hyper-Ballad";
    assert_eq!(normalize_fragment(value), "bjork hyper ballad");
}

#[test]
fn collapses_spaces_between_parts() {
    let parts = ["  The  Cure ", "Disintegration", "1989"];
    assert_eq!(normalize_search_text(&parts), "the cure disintegration 1989");
}

#[test]
fn strips_leading_track_number() {
    let value = "01 - Intro";
    assert_eq!(strip_leading_track_number(value), "Intro");
}

#[test]
fn builds_track_search_text() {
    let parts = TrackSearchParts {
        title: Some("01 - Intro"),
        artist: Some("The Cure feat Siouxsie"),
        album: Some("Disintegration"),
        album_artist: None,
        genres: Some(&["Goth", "Alt Rock"]),
        comments: None,
        label: Some("Fiction"),
        filename: Some("01 - Intro.flac"),
        year: Some(1989),
        track_number: Some(1),
        disc_number: None,
    };

    let text = normalize_track_search_text(parts);
    assert!(text.contains("intro"));
    assert!(text.contains("the cure"));
    assert!(text.contains("siouxsie"));
    assert!(text.contains("disintegration"));
    assert!(text.contains("goth"));
    assert!(text.contains("fiction"));
    assert!(text.contains("1989"));
}

#[test]
fn splits_artist_tokens() {
    let tokens = split_artist_tokens("A & B, C feat D");
    assert_eq!(tokens, vec!["A", "B", "C", "D"]);
}

#[test]
fn decomposes_precomposed_letters() {
    // A precomposed o-umlaut splits into a base letter and a combining
    // mark; the base letter survives normalization.
    assert_eq!(normalize_fragment("Björk"), "bjork");
}

#[test]
fn drops_fragments_that_normalize_to_nothing() {
    assert_eq!(normalize_fragment(""), "");
    assert_eq!(normalize_fragment("!!! --- ???"), "");
    assert_eq!(normalize_search_text(&["...", "Cure", "---"]), "cure");
}

#[test]
fn keeps_interior_spacing_single() {
    assert_eq!(normalize_fragment("a\t\tb  c"), "a b c");
}

#[test]
fn splits_on_ft_and_featuring() {
    assert_eq!(split_artist_tokens("A ft B"), vec!["A", "B"]);
    assert_eq!(split_artist_tokens("A featuring B"), vec!["A", "B"]);
    assert_eq!(split_artist_tokens("A FEAT B"), vec!["A", "B"]);
}

#[test]
fn whole_field_is_one_token_when_nothing_splits_out() {
    assert_eq!(split_artist_tokens("&&&"), vec!["&&&"]);
    assert_eq!(split_artist_tokens("Nick Cave"), vec!["Nick Cave"]);
}

#[test]
fn strip_needs_a_delimiter_after_the_number() {
    assert_eq!(strip_leading_track_number("2001: A Space Odyssey"), "2001: A Space Odyssey");
    assert_eq!(strip_leading_track_number("Intro"), "Intro");
    assert_eq!(strip_leading_track_number("  12.Intro"), "Intro");
    assert_eq!(strip_leading_track_number("3 _  Outro"), "Outro");
    assert_eq!(strip_leading_track_number("42"), "42");
}

#[test]
fn renders_catalog_numbers_in_decimal() {
    assert_eq!(int_to_decimal_string(0), "0");
    assert_eq!(int_to_decimal_string(1989), "1989");
    assert_eq!(int_to_decimal_string(-5), "-5");
    assert_eq!(int_to_decimal_string(i32::MIN), "-2147483648");
    assert_eq!(int_to_decimal_string(i32::MAX), "2147483647");
}

#[test]
fn track_search_text_joins_in_order() {
    let parts = TrackSearchParts {
        title: Some("07 - Plainsong"),
        artist: Some("The Cure"),
        album: Some("Disintegration"),
        album_artist: None,
        genres: None,
        comments: None,
        label: None,
        filename: None,
        year: Some(1989),
        track_number: Some(7),
        disc_number: Some(1),
    };
    assert_eq!(normalize_track_search_text(parts), "plainsong the cure disintegration 1989 7 1");
}

#[test]
fn empty_track_parts_give_empty_text() {
    let parts = TrackSearchParts::default();
    assert_eq!(normalize_track_search_text(parts), "");
}
