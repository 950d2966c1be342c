use qlue_ls::configuration::{
    CompletionTemplate, FormatSettings, Replacement, Replacements, Settings,
};

#[test]
fn test_default_replacements_are_valid_regexes() {
    assert_eq!(Replacements::default().validate(), Ok(()));
}

#[test]
fn test_validate_reports_an_invalid_pattern() {
    let replacements = Replacements {
        object_variable: vec![
            Replacement::new(r"^has(\w+)", "$1"),
            Replacement::new(r"([unclosed", ""),
        ],
    };

    let error = replacements
        .validate()
        .expect_err("an unparsable pattern should be reported");

    assert!(
        error.contains("([unclosed"),
        "the error should name the offending pattern, got: {}",
        error
    );
}

#[test]
fn test_invalid_pattern_is_skipped_instead_of_panicking() {
    let replacements = Replacements {
        object_variable: vec![
            Replacement::new(r"([unclosed", ""),
            Replacement::new(r"^has(\w+)", "$1"),
        ],
    };

    // WARNING: this used to panic.
    assert_eq!(replacements.apply_object_variable("hasAuthor"), "Author");
}

#[test]
fn test_only_the_invalid_pattern_is_skipped() {
    let replacements = Replacements {
        object_variable: vec![
            Replacement::new(r"^has(\w+)", "$1"),
            Replacement::new(r"*nope", ""),
            Replacement::new(r"Author", "Creator"),
        ],
    };

    assert_eq!(replacements.apply_object_variable("hasAuthor"), "Creator");
}

#[test]
fn test_replacement_equality_ignores_the_compiled_cache() {
    let uncompiled = Replacement::new(r"^has(\w+)", "$1");
    let compiled = Replacement::new(r"^has(\w+)", "$1");
    assert_eq!(uncompiled, compiled);
}

#[test]
fn test_default_replacements_strip_has_prefix_camel_case() {
    let replacements = Replacements::default();

    assert_eq!(replacements.apply_object_variable("hasAuthor"), "Author");
    assert_eq!(
        replacements.apply_object_variable("hasBirthDate"),
        "Birth_Date"
    );
    assert_eq!(replacements.apply_object_variable("hasX"), "X");
}

#[test]
fn test_default_replacements_split_camel_case() {
    let replacements = Replacements::default();

    assert_eq!(
        replacements.apply_object_variable("birthDate"),
        "birth_Date"
    );
    assert_eq!(
        replacements.apply_object_variable("placeOfBirth"),
        "place_Of_Birth"
    );
    assert_eq!(replacements.apply_object_variable("ISBN"), "ISBN");
    assert_eq!(replacements.apply_object_variable("hasISBN"), "ISBN");
}

#[test]
fn test_default_replacements_strip_has_prefix_space_separated() {
    let replacements = Replacements::default();

    assert_eq!(replacements.apply_object_variable("has author"), "author");
    assert_eq!(
        replacements.apply_object_variable("has birth date"),
        "birth_date"
    );
}

#[test]
fn test_default_replacements_strip_ed_by_suffix() {
    let replacements = Replacements::default();

    assert_eq!(replacements.apply_object_variable("authoredBy"), "author");
    assert_eq!(replacements.apply_object_variable("directedBy"), "direct");
}

#[test]
fn test_default_replacements_collapse_non_word_characters() {
    let replacements = Replacements::default();

    assert_eq!(
        replacements.apply_object_variable("place of birth"),
        "place_of_birth"
    );
    assert_eq!(replacements.apply_object_variable("part-of"), "part_of");
    assert_eq!(
        replacements.apply_object_variable("under_score"),
        "under_score"
    );
    assert_eq!(
        replacements.apply_object_variable("date  of - birth"),
        "date_of_birth"
    );
}

#[test]
fn test_default_replacements_trim_leading_and_trailing_separators() {
    let replacements = Replacements::default();

    assert_eq!(replacements.apply_object_variable("P31/P279*"), "P31_P279");
    assert_eq!(replacements.apply_object_variable(" author "), "author");
    assert_eq!(replacements.apply_object_variable("(author)"), "author");
    assert_eq!(replacements.apply_object_variable("///"), "");
}

#[test]
fn test_default_replacements_leave_unmatched_names_untouched() {
    let replacements = Replacements::default();

    assert_eq!(replacements.apply_object_variable("author"), "author");
    assert_eq!(replacements.apply_object_variable("hasty"), "hasty");
    assert_eq!(replacements.apply_object_variable("has"), "has");
    assert_eq!(
        replacements.apply_object_variable("overhasAuthor"),
        "overhas_Author"
    );
}

#[test]
fn test_replacements_are_applied_in_order() {
    let replacements = Replacements {
        object_variable: vec![
            Replacement::new(r"^has(\w+)", "$1"),
            Replacement::new(r"^Author$", "creator"),
        ],
    };

    assert_eq!(replacements.apply_object_variable("hasAuthor"), "creator");
}

#[test]
fn test_empty_replacements_are_a_no_op() {
    let replacements = Replacements {
        object_variable: vec![],
    };

    assert_eq!(replacements.apply_object_variable("hasAuthor"), "hasAuthor");
}

#[test]
fn test_settings_default_includes_default_replacements() {
    let settings = Settings::default();

    assert_eq!(
        settings.replacements,
        Some(Replacements::default()),
        "default settings should carry the default replacements"
    );
}

#[test]
fn the_invalid_pattern_report_starts_with_the_pattern() {
    let replacements = Replacements {
        object_variable: vec![Replacement::new(r"*nope", "")],
    };
    let error = replacements.validate().unwrap_err();
    assert!(error.starts_with("invalid objectVariable pattern \"*nope\": "));
    assert!(error.len() > "invalid objectVariable pattern \"*nope\": ".len());
}

#[test]
fn completion_templates_round_trip_through_their_names() {
    for name in [
        "hover",
        "subjectCompletion",
        "predicateCompletionContextSensitive",
        "predicateCompletionContextInsensitive",
        "objectCompletionContextSensitive",
        "objectCompletionContextInsensitive",
        "valuesCompletionContextSensitive",
        "valuesCompletionContextInsensitive",
    ] {
        let template = CompletionTemplate::try_from(name.to_string()).unwrap();
        assert_eq!(template.name(), name);
    }
    let error = CompletionTemplate::try_from("nonsense".to_string()).unwrap_err();
    assert_eq!(error.message(), "unknown completion query template \"nonsense\"");
}

#[test]
fn default_format_settings() {
    let format = FormatSettings::default();
    assert!(format.align_predicates);
    assert_eq!(format.tab_size, Some(2));
    assert_eq!(format.line_length, 120);
}
