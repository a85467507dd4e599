use beambin_core::database::{append_origin, is_valid_content};
use beambin_core::model::DatabaseError;
use beambin_core::slug::{first_chars, is_valid_slug, normalize};

#[test]
fn normalize_lowercases_ascii() {
    assert_eq!(normalize("My-Paste!"), Ok("my-paste!".to_string()));
    assert_eq!(normalize("ABC"), Ok("abc".to_string()));
    assert_eq!(normalize("already"), Ok("already".to_string()));
}

#[test]
fn normalize_keeps_a_space() {
    assert_eq!(normalize("My Paste!"), Ok("my paste!".to_string()));
}

#[test]
fn normalize_of_empty_is_empty() {
    assert_eq!(normalize(""), Ok(String::new()));
}

#[test]
fn normalize_strips_only_the_added_hyphen() {
    assert_eq!(normalize("abc-"), Ok("abc-".to_string()));
    assert_eq!(normalize("-"), Ok("-".to_string()));
    assert_eq!(normalize("a--"), Ok("a--".to_string()));
}

#[test]
fn normalize_encodes_unicode() {
    assert_eq!(normalize("bücher"), Ok("bcher-kva".to_string()));
    assert_eq!(normalize("München"), Ok("mnchen-3ya".to_string()));
    assert_eq!(normalize("ü"), Ok("tda".to_string()));
    assert_eq!(normalize("😀"), Ok("e28h".to_string()));
    assert_eq!(normalize("Straße-"), Ok("strae--eta".to_string()));
}

#[test]
fn normalize_is_idempotent() {
    let slugs = ["My-Paste!", "bücher", "", "abc-", "-", "München", "😀", "A B", "x_Y.z!", "tda"];
    for slug in slugs {
        let once = normalize(slug).unwrap();
        let twice = normalize(&once).unwrap();
        assert_eq!(twice, once);
    }
}

#[test]
fn normalize_gives_lowercase_ascii() {
    let slugs = ["ÄÖÜ", "Ünïcödé", "MiXeD-Case", "日本語"];
    for slug in slugs {
        let key = normalize(slug).unwrap();
        assert!(key.is_ascii());
        assert!(!key.chars().any(|c| c.is_ascii_uppercase()));
    }
}

#[test]
fn normalize_fails_where_the_encoder_overflows() {
    let mut slug = "a".repeat(70_000);
    slug.push('\u{10ffff}');
    assert_eq!(normalize(&slug), Err(DatabaseError::ValueError));
}

#[test]
fn slug_charset_is_checked() {
    assert!(is_valid_slug("my-paste!"));
    assert!(is_valid_slug("a_b.c"));
    assert!(is_valid_slug("ABC"));
    assert!(is_valid_slug("0123456789"));
    assert!(!is_valid_slug("my paste!"));
    assert!(!is_valid_slug("a/b"));
    assert!(!is_valid_slug("a#b"));
    assert!(!is_valid_slug("abc\ndef"));
    assert!(!is_valid_slug("good\nbad bad"));
    assert!(!is_valid_slug("abc\n"));
}

#[test]
fn slug_may_hold_word_characters_and_pictographs() {
    assert!(is_valid_slug("bücher"));
    assert!(is_valid_slug("日本語"));
    assert!(is_valid_slug("a😀b"));
    assert!(is_valid_slug("©©©"));
    assert!(!is_valid_slug("a→b"));
    assert!(!is_valid_slug("a b"));
}

#[test]
fn slug_length_is_checked_in_characters() {
    assert!(!is_valid_slug(""));
    assert!(!is_valid_slug("ab"));
    assert!(is_valid_slug("abc"));
    assert!(is_valid_slug(&"a".repeat(250)));
    assert!(!is_valid_slug(&"a".repeat(251)));
    assert!(is_valid_slug(&"é".repeat(250)));
    assert!(!is_valid_slug("éé"));
}

#[test]
fn content_length_is_checked_in_characters() {
    assert!(!is_valid_content(""));
    assert!(is_valid_content("a"));
    assert!(is_valid_content(&"a".repeat(200_000)));
    assert!(!is_valid_content(&"a".repeat(200_001)));
    assert!(is_valid_content(&"日".repeat(200_000)));
}

#[test]
fn first_chars_takes_a_prefix() {
    assert_eq!(first_chars("0123456789abcdef", 10), "0123456789");
    assert_eq!(first_chars("short", 10), "short");
    assert_eq!(first_chars("", 10), "");
    assert_eq!(first_chars("äöüx", 2), "äö");
    assert_eq!(first_chars("abc", 0), "");
}

#[test]
fn origin_log_keeps_the_last_ten() {
    let mut log: Vec<(u128, String)> = Vec::new();
    for i in 0..10u128 {
        log = append_origin(log, (i, format!("ip{}", i)));
        assert_eq!(log.len(), (i + 1) as usize);
    }
    log = append_origin(log, (10, "ip10".to_string()));
    assert_eq!(log.len(), 10);
    assert_eq!(log[0], (1, "ip1".to_string()));
    assert_eq!(log[9], (10, "ip10".to_string()));
}

#[test]
fn origin_log_cuts_an_overlong_log_down() {
    let log: Vec<(u128, String)> = (0..15u128).map(|i| (i, format!("ip{}", i))).collect();
    let cut = append_origin(log, (15, "ip15".to_string()));
    let times: Vec<u128> = cut.iter().map(|entry| entry.0).collect();
    assert_eq!(times, vec![6, 7, 8, 9, 10, 11, 12, 13, 14, 15]);
}

#[test]
fn a_slug_that_is_not_empty_has_a_key_that_is_not_empty() {
    for slug in ["a", "-", "é", "😀", "日本", "A-", "ß-"] {
        let key = normalize(slug).unwrap();
        assert!(!key.is_empty());
    }
}

#[test]
fn encoded_unicode_does_not_end_in_a_hyphen() {
    for slug in ["é", "é-", "-é", "a-é-", "日本語", "--ü--"] {
        let key = normalize(slug).unwrap();
        assert!(!key.ends_with('-'));
        assert_eq!(normalize(&key), Ok(key.clone()));
    }
}
