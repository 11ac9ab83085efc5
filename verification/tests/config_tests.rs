use words_cli::config::{FormatConfig, FormatStyle, WordsConfig};

#[test]
fn test_resolve_format_style_with_user_style() {
    let style_config = FormatStyle {
        word: Some("test".to_string()),
        part_of_speech: Some("test".to_string()),
        definition: Some("test".to_string()),
        example_title: Some("test".to_string()),
        example: Some("test".to_string()),
        synonyms_title: Some("test".to_string()),
        synonyms: Some("test".to_string()),
        reset: Some("test".to_string()),
    };

    let mut word_config = WordsConfig {
        format_style: Some(style_config),
        format_config: None,
    };

    let formatter_style = word_config.resolve_style().unwrap();

    assert_eq!(
        &formatter_style.word, "test",
        "did not set config correctly"
    );

    assert_eq!(
        &formatter_style.part_of_speech, "test",
        "did not set config corectly"
    );
    assert_eq!(
        &formatter_style.definition, "test",
        "did not set config corectly"
    );

    assert_eq!(
        &formatter_style.example_title, "test",
        "did not set correctly"
    );
    assert_eq!(&formatter_style.example, "test", "did not set correctly");

    assert_eq!(
        &formatter_style.synonyms_title, "test",
        "did not set correctly"
    );

    assert_eq!(&formatter_style.synonyms, "test", "did not set correctly");

    assert_eq!(
        &formatter_style.reset, "test",
        "did not set config correctly"
    );
}

#[test]
fn test_resolve_format_style_with_out_user_config() {
    let mut word_config = WordsConfig {
        format_style: None,
        format_config: None,
    };

    match word_config.resolve_style() {
        Some(_) => assert!(
            false,
            "should not get config if there is nothign to merge"
        ),
        None => assert!(true),
    }
}

#[test]
fn test_resolve_format_format_config_with_user_config() {
    let format_config_user = FormatConfig {
        formating: Some(true),
        columns: Some(10),
        indent_by: Some(3),
        search_limit: Some(4),
        synonym_limit: Some(8),
    };

    let mut word_config = WordsConfig {
        format_style: None,
        format_config: Some(format_config_user),
    };

    let formatter_config = word_config.resolve_formatter_config().unwrap();

    assert_eq!(
        formatter_config.columns, 10,
        "did not set config correctly"
    );

    assert_eq!(
        formatter_config.indent_by, 3,
        "did not set config correctly"
    );
    assert_eq!(
        formatter_config.search_limit, 4,
        "did not set config correctly"
    );
    assert_eq!(
        formatter_config.synonym_limit, 8,
        "did not set config correctly"
    );
}

#[test]
fn test_resolve_format_format_config_without_user_config() {
    let mut word_config = WordsConfig {
        format_style: None,
        format_config: None,
    };

    let formatter_config = word_config.resolve_formatter_config();

    match formatter_config {
        Some(_) => assert!(
            false,
            "should not get config when user config is not present"
        ),

        None => assert!(true),
    }
}

#[test]
fn test_resolve_config_both_user_config() {
    let style_config = FormatStyle {
        word: Some("test".to_string()),
        part_of_speech: Some("test".to_string()),
        definition: Some("test".to_string()),
        example_title: Some("test".to_string()),
        example: Some("test".to_string()),
        synonyms_title: Some("test".to_string()),
        synonyms: Some("test".to_string()),
        reset: Some("test".to_string()),
    };

    let format_config_user = FormatConfig {
        formating: Some(true),
        columns: Some(10),
        indent_by: Some(3),
        search_limit: Some(4),
        synonym_limit: Some(8),
    };

    let mut word_config = WordsConfig {
        format_style: Some(style_config),
        format_config: Some(format_config_user),
    };

    let formatter_config = word_config.resolve_config();

    assert_eq!(
        formatter_config.columns, 10,
        "did not set config correctly"
    );

    assert_eq!(
        formatter_config.indent_by, 3,
        "did not set config correctly"
    );
    assert_eq!(
        formatter_config.search_limit, 4,
        "did not set config correctly"
    );
    assert_eq!(
        formatter_config.synonym_limit, 8,
        "did not set config correctly"
    );

    let formatter_style = formatter_config.format_style;

    assert_eq!(
        &formatter_style.word, "test",
        "did not set config correctly"
    );

    assert_eq!(
        &formatter_style.part_of_speech, "test",
        "did not set config corectly"
    );
    assert_eq!(
        &formatter_style.definition, "test",
        "did not set config corectly"
    );

    assert_eq!(
        &formatter_style.example_title, "test",
        "did not set correctly"
    );
    assert_eq!(&formatter_style.example, "test", "did not set correctly");

    assert_eq!(
        &formatter_style.synonyms_title, "test",
        "did not set correctly"
    );

    assert_eq!(&formatter_style.synonyms, "test", "did not set correctly");

    assert_eq!(
        &formatter_style.reset, "test",
        "did not set config correctly"
    );
}

#[test]
fn test_resolve_config_only_user_style_config() {
    let style_config = FormatStyle {
        word: Some("test".to_string()),
        part_of_speech: Some("test".to_string()),
        definition: Some("test".to_string()),
        example_title: Some("test".to_string()),
        example: Some("test".to_string()),
        synonyms_title: Some("test".to_string()),
        synonyms: Some("test".to_string()),
        reset: Some("test".to_string()),
    };

    let mut word_config = WordsConfig {
        format_style: Some(style_config),
        format_config: None,
    };

    let formatter_config = word_config.resolve_config();

    let format_style = formatter_config.format_style;

    assert_eq!(&format_style.word, "test", "did not set config correctly");

    assert_eq!(
        &format_style.part_of_speech, "test",
        "did not set config corectly"
    );
    assert_eq!(
        &format_style.definition, "test",
        "did not set config corectly"
    );

    assert_eq!(
        &format_style.example_title, "test",
        "did not set correctly"
    );
    assert_eq!(&format_style.example, "test", "did not set correctly");

    assert_eq!(
        &format_style.synonyms_title, "test",
        "did not set correctly"
    );

    assert_eq!(&format_style.synonyms, "test", "did not set correctly");

    assert_eq!(&format_style.reset, "test", "did not set config correctly");
}

#[test]
fn test_resolve_config_only_user_formatter_config() {
    let format_config_user = FormatConfig {
        formating: Some(true),
        columns: Some(10),
        indent_by: Some(3),
        search_limit: Some(4),
        synonym_limit: Some(8),
    };

    let mut word_config = WordsConfig {
        format_style: None,
        format_config: Some(format_config_user),
    };

    let formatter_config = word_config.resolve_config();

    assert_eq!(
        formatter_config.columns, 10,
        "did not set config correctly"
    );

    assert_eq!(
        formatter_config.indent_by, 3,
        "did not set config correctly"
    );
    assert_eq!(
        formatter_config.search_limit, 4,
        "did not set config correctly"
    );
    assert_eq!(
        formatter_config.synonym_limit, 8,
        "did not set config correctly"
    );
}
