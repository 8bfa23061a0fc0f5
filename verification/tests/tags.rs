use goose_utils::{contains_unicode_tags, sanitize_unicode_tags};

#[test]
fn test_contains_unicode_tags() {
    // Detection of Unicode Tags Block characters
    assert!(contains_unicode_tags("Hello\u{E0041}world"));
    assert!(contains_unicode_tags("\u{E0000}"));
    assert!(contains_unicode_tags("\u{E007F}"));
    assert!(!contains_unicode_tags("Hello world"));
    assert!(!contains_unicode_tags("Hello 世界 🌍"));
    assert!(!contains_unicode_tags(""));
}

#[test]
fn test_sanitize_unicode_tags() {
    // Unicode Tags Block characters are removed
    let malicious = "Hello\u{E0041}\u{E0042}\u{E0043}world"; // Invisible "ABC"
    let cleaned = sanitize_unicode_tags(malicious);
    assert_eq!(cleaned, "Helloworld");
}

#[test]
fn test_sanitize_unicode_tags_preserves_legitimate_unicode() {
    // Legitimate Unicode characters are preserved
    let clean_text = "Hello world 世界 🌍";
    let cleaned = sanitize_unicode_tags(clean_text);
    assert_eq!(cleaned, clean_text);
}

#[test]
fn test_sanitize_unicode_tags_empty_string() {
    let empty = "";
    let cleaned = sanitize_unicode_tags(empty);
    assert_eq!(cleaned, "");
}

#[test]
fn test_sanitize_unicode_tags_only_malicious() {
    // A string containing only Unicode Tags characters
    let only_malicious = "\u{E0041}\u{E0042}\u{E0043}";
    let cleaned = sanitize_unicode_tags(only_malicious);
    assert_eq!(cleaned, "");
}

#[test]
fn test_sanitize_unicode_tags_mixed_content() {
    // Mixed legitimate and malicious Unicode
    let mixed = "Hello\u{E0041} 世界\u{E0042} 🌍\u{E0043}!";
    let cleaned = sanitize_unicode_tags(mixed);
    assert_eq!(cleaned, "Hello 世界 🌍!");
}

#[test]
fn test_sanitize_normalizes_before_filtering() {
    // A decomposed sequence is composed by the NFC pass: "e" followed by a
    // combining acute accent becomes the precomposed letter. This fails if
    // normalization handed its input back unchanged.
    let decomposed = "e\u{0301}";
    let cleaned = sanitize_unicode_tags(decomposed);
    assert_eq!(cleaned, "\u{00E9}");
}

#[test]
fn test_detector_after_sanitize_is_false() {
    // Whatever goes in, the sanitized text never triggers the detector.
    let inputs = [
        "Hello\u{E0041}world",
        "\u{E0000}\u{E007F}",
        "plain",
        "",
        "e\u{0301}\u{E0041}",
    ];
    for input in inputs {
        let cleaned = sanitize_unicode_tags(input);
        assert!(!contains_unicode_tags(&cleaned));
    }
}

#[test]
fn test_sanitize_idempotent_on_ordinary_text() {
    // Sanitizing twice changes nothing more than sanitizing once.
    let inputs = ["Hello\u{E0041} 世界\u{E0042} 🌍\u{E0043}!", "Hello world", ""];
    for input in inputs {
        let once = sanitize_unicode_tags(input);
        let twice = sanitize_unicode_tags(&once);
        assert_eq!(twice, once);
    }
}

#[test]
fn test_detector_boundary_neighbours() {
    // Code points just outside the Tags Block are not flagged.
    assert!(!contains_unicode_tags("\u{DFFFF}"));
    assert!(!contains_unicode_tags("\u{E0080}"));
}
