use words_cli::dict_api::{Definition, Meaning, Phonetic, WordData};
use words_cli::formatter::{format_line, format_word_data, FormatterConfig};

fn fake_word_data() -> WordData {
    let phonetics = vec![Phonetic {
        text: "test".to_string(),
        audio: "test".to_string(),
    }];

    let synonyms = Some(vec![
        "test".to_string(),
        "test".to_string(),
        "test".to_string(),
        "test".to_string(),
        "test".to_string(),
        "test".to_string(),
        "test".to_string(),
        "test".to_string(),
        "test".to_string(),
        "test".to_string(),
    ]);

    let definitions = vec![Definition {
        definition: "test definition".to_string(),
        example: Some("test example text".to_string()),
        synonyms,
    }];

    let meanings = vec![Meaning {
        partOfSpeech: "test part of speech".to_string(),
        definitions,
    }];

    WordData {
        word: "test".to_string(),
        meanings,
        phonetics,
    }
}

fn make_formatted_text_one() -> String {
    "\x1b[1mtest\x1b[0m\n  \x1b[1mtest part of speech\x1b[0m\n    \
        \x1b[0mtest definition\x1b[0m\n\n    \x1b[4mexample\x1b[0m\n      \
        \x1b[3mtest example text\x1b[0m"
        .to_string()
}

fn make_formatted_text_two() -> String {
    let mut fake_word_string_two = "\n\n    \x1b[4msynonyms\x1b[0m\n".to_string();

    let test_syn = "      \x1b[0mtest\x1b[0m";

    let fake_word_string_two_p2 = format!("{}\n", test_syn).repeat(4);

    fake_word_string_two.push_str(&fake_word_string_two_p2);
    fake_word_string_two.push_str(test_syn);

    fake_word_string_two
}

fn make_fake_word_text_no_formatting() -> String {
    let mut fake_word_string_one = "test test part of speech test definition \
        example test example text synonyms"
        .to_string();

    let test_syns = " test".repeat(10);

    fake_word_string_one.push_str(&test_syns);

    fake_word_string_one.to_string()
}

#[test]
fn test_format_line_short_line_no_trailing_comma() {
    let mut conf = FormatterConfig::default();

    let line_break = 21;

    conf.columns = line_break;

    let style = "";
    let spaces = "";
    let line = "this is a short line";

    let lines = format_line(&conf, style, spaces, line);

    assert_eq!(lines.len(), 1, "broke a short line when it shouldn't");

    assert_eq!(
        lines.first().unwrap(),
        "this is a short line\u{1b}[0m",
        "line mangled"
    );
}

#[test]
fn test_format_line_short_line_trailing_comma() {
    let mut conf = FormatterConfig::default();

    let line_break = 20;

    conf.columns = line_break;

    let style = "";
    let spaces = "";
    let line = "this is a short line";

    let lines = format_line(&conf, style, spaces, line);

    assert_eq!(lines.len(), 1, "broke a short line when it shouldn't");

    assert_eq!(
        lines.first().unwrap(),
        "this is a short line\u{1b}[0m",
        "line mangled"
    );
}

#[test]
fn test_format_line_long_line_with_spaces() {
    let mut conf = FormatterConfig::default();

    let line_break = 20;

    conf.columns = line_break;

    let style = "";
    let spaces = "";
    let line = "this is a vary long lone that will need a lot of word and \
                words and more words to be very long if i really want this \
                string to be very long i guess im glad im i dont need it \
                to be very unique";

    let lines = format_line(&conf, style, spaces, line);

    assert_eq!(
        lines.len(),
        11,
        "broke a long in to wrong amount of segments"
    );

    let broken_lines: Vec<&'static str> = vec![
        "this is a vary long \x1b[0m",
        "lone that will need \x1b[0m",
        "a lot of word and \x1b[0m",
        "words and more \x1b[0m",
        "words to be very \x1b[0m",
        "long if i really \x1b[0m",
        "want this string to \x1b[0m",
        "be very long i \x1b[0m",
        "guess im glad im i \x1b[0m",
        "dont need it to be \x1b[0m",
        "very unique\x1b[0m",
    ];

    assert_eq!(lines, broken_lines, "broke lines in the wrong way")
}

#[test]
fn test_format_line_long_line_without_spaces() {
    let mut conf = FormatterConfig::default();

    let line_break = 20;

    conf.columns = line_break;

    let style = "";
    let spaces = "";

    let line = "11111111111111111111111111111111111111111111111111\
                11111111111111111111111111111111111111111111111111";

    let lines = format_line(&conf, style, spaces, line);

    assert_eq!(
        lines.len(),
        5,
        "broke a long in to wrong amount of segments"
    );

    let broken_lines: Vec<&'static str> = vec![
        "11111111111111111111\x1b[0m",
        "11111111111111111111\x1b[0m",
        "11111111111111111111\x1b[0m",
        "11111111111111111111\x1b[0m",
        "11111111111111111111\x1b[0m",
    ];

    assert_eq!(lines, broken_lines, "broke lines in the wrong way")
}

#[test]
fn test_format_word_data() {
    let fake_word = fake_word_data();

    let mut fake_word_string = make_formatted_text_one();
    fake_word_string.push_str(&make_formatted_text_two());

    let fake_conf = FormatterConfig::default();

    let word_string = format_word_data(&fake_conf, &fake_word);

    assert_eq!(word_string, fake_word_string, "did not format correctly");
}

#[test]
fn test_format_word_data_synonyms_are_truncated() {
    let fake_word = fake_word_data();

    let mut fake_word_string = make_formatted_text_one();

    fake_word_string.push_str(&make_formatted_text_two());

    let fake_conf = FormatterConfig::default();

    let word_str = format_word_data(&fake_conf, &fake_word);

    assert_eq!(&word_str, &fake_word_string, "did not format correctly");
}

#[test]
fn test_format_word_data_no_synonyms() {
    let fake_word = fake_word_data();

    let fake_word_string = make_formatted_text_one();

    let mut fake_conf = FormatterConfig::default();

    fake_conf.synonym_limit = 0;

    let word_str = format_word_data(&fake_conf, &fake_word);

    assert_eq!(&word_str, &fake_word_string, "did not format correctly");
}

#[test]
fn test_clear_formating_and_style() {
    let mut formatter_config = FormatterConfig::default();

    formatter_config.clear_formating();

    assert_eq!(formatter_config.columns, 0, "did not clear columns");
    assert_eq!(formatter_config.indent_by, 0, "didn not clear indent_by");
    assert_eq!(
        formatter_config.search_limit, 0,
        "did not clear search_limit"
    );
    assert_eq!(
        formatter_config.synonym_limit, 100,
        "didn not clear synonym_limit"
    );

    formatter_config.clear_style();

    assert!(
        formatter_config.format_style.word.is_empty(),
        "did not clear word"
    );
    assert!(
        formatter_config.format_style.part_of_speech.is_empty(),
        "did not clear part_of_speech"
    );
    assert!(
        formatter_config.format_style.definition.is_empty(),
        "did not clear definition"
    );
    assert!(
        formatter_config.format_style.example_title.is_empty(),
        "did not clear example_title"
    );
    assert!(
        formatter_config.format_style.example.is_empty(),
        "did not clear example"
    );
    assert!(
        formatter_config.format_style.synonyms_title.is_empty(),
        "did not clear synonyms_title"
    );
    assert!(
        formatter_config.format_style.synonyms.is_empty(),
        "did not clear synonyms"
    );
    assert!(
        formatter_config.format_style.reset.is_empty(),
        "did not clear reset"
    );
}

#[test]
fn test_format_word_data_no_formating_and_style() {
    let fake_word = fake_word_data();

    let fake_word_string = make_fake_word_text_no_formatting();

    let mut fake_conf = FormatterConfig::default();

    fake_conf.formatting = false;

    fake_conf.clear_formating();
    fake_conf.clear_style();

    let word_string = format_word_data(&fake_conf, &fake_word);

    assert_eq!(word_string, fake_word_string, "did not format correctly");
}
