use words_cli::actions::{
    definition_plan, suggest_output, DefinePlan, WordAction, WordTask,
};
use words_cli::config::apply_cli_overrides;
use words_cli::dict_api::{check_status, Definition, Meaning, RequestOptions, WordData};
use words_cli::formatter::{format_line, format_word_data, FormatterConfig};
use words_cli::line_break::_break_line;
use words_cli::spell::collect_suggestions;
use words_cli::utils::{
    cache_dir_path, cache_file_path, resolve_config_dir, resolve_config_file_path,
    resolve_data_dir, trim_str,
};
use words_cli::{WordArgs, WordsError};

fn monster_word_data() -> WordData {
    WordData {
        word: "monster".to_string(),
        phonetics: vec![],
        meanings: vec![Meaning {
            partOfSpeech: "noun".to_string(),
            definitions: vec![Definition {
                definition: "An imaginary creature.".to_string(),
                example: Some("She was made into a monster.".to_string()),
                synonyms: Some(vec![
                    "fabulous creature".to_string(),
                    "mythical creature".to_string(),
                ]),
            }],
        }],
    }
}

fn plain_args() -> WordArgs {
    WordArgs {
        no_print: false,
        no_formatting: false,
        no_style: false,
        force_style: false,
        suggest: None,
        define: None,
        columns: None,
        config: None,
    }
}

#[test]
fn test_format_word_data_monster_formatted() {
    let conf = FormatterConfig::default();
    let data = monster_word_data();

    let expected = "\x1b[1mmonster\x1b[0m\n  \x1b[1mnoun\x1b[0m\n    \
        \x1b[0mAn imaginary creature.\x1b[0m\n\n    \x1b[4mexample\x1b[0m\n      \
        \x1b[3mShe was made into a monster.\x1b[0m\n\n    \x1b[4msynonyms\x1b[0m\n      \
        \x1b[0mfabulous creature\x1b[0m\n      \x1b[0mmythical creature\x1b[0m";

    assert_eq!(format_word_data(&conf, &data), expected);
}

#[test]
fn test_format_word_data_monster_unformatted() {
    let mut conf = FormatterConfig::default();
    conf.formatting = false;
    conf.clear_formating();
    conf.clear_style();
    let data = monster_word_data();

    let expected = "monster noun An imaginary creature. example \
        She was made into a monster. synonyms fabulous creature mythical creature";

    assert_eq!(format_word_data(&conf, &data), expected);
}

#[test]
fn test_format_word_data_unformatted_synonym_limit_applies() {
    let mut conf = FormatterConfig::default();
    conf.formatting = false;
    conf.clear_formating();
    conf.clear_style();
    conf.synonym_limit = 1;
    let data = monster_word_data();

    let expected = "monster noun An imaginary creature. example \
        She was made into a monster. synonyms fabulous creature";

    assert_eq!(format_word_data(&conf, &data), expected);
}

#[test]
fn test_break_line_no_space() {
    let line = "11111111111111111111111111111111111111111111111111";

    let line_break = 10;

    let lines = _break_line(line_break, line);

    assert_eq!(lines.len(), 5, "did not make the right amount of lines");

    for line in lines {
        assert_eq!(line.len(), 10, "did not break lines correctly");
    }
}

#[test]
fn test_break_line_spaces() {
    let line = "1111111111 1111111111 1111111111 1111111111 1111111111";

    let line_break = 10;

    let lines = _break_line(line_break, line);

    assert_eq!(lines.len(), 5, "did not make the right amount of lines");

    for line in lines {
        assert_eq!(line, String::from("1111111111"))
    }
}

#[test]
fn test_break_line_short_line_stays_whole() {
    assert_eq!(_break_line(10, "short"), vec!["short"]);
    assert_eq!(_break_line(0, "no limit means no wrapping at all"), vec![
        "no limit means no wrapping at all"
    ]);
}

#[test]
fn test_break_line_drops_single_space_segment() {
    assert_eq!(_break_line(1, "a b"), vec!["a", "b"]);
}

#[test]
fn test_break_line_rejoins_to_original() {
    let line = "this is a vary long lone that will need a lot of word and \
                words and more words to be very long if i really want this \
                string to be very long i guess im glad im i dont need it \
                to be very unique";

    let lines = _break_line(20, line);

    let rejoined: String = lines.concat();
    assert_eq!(rejoined, line, "segments do not concatenate back");
}

#[test]
fn test_format_line_search_limit_zero_hard_breaks() {
    let mut conf = FormatterConfig::default();
    conf.columns = 10;
    conf.search_limit = 0;

    let lines = format_line(&conf, "", "", "aaaa aaaa aaaa");

    let expected: Vec<&'static str> = vec!["aaaa aaaa \x1b[0m", "aaaa\x1b[0m"];
    assert_eq!(lines, expected, "a zero search limit must break hard");
}

#[test]
fn test_trim_str() {
    assert_eq!(trim_str("  hi there\t\n"), "hi there");
    assert_eq!(trim_str("word"), "word");
    assert_eq!(trim_str(""), "");
    assert_eq!(trim_str("   "), "");
}

#[test]
fn test_resolve_data_dir_xdg() {
    let path = resolve_data_dir(Some("test".to_string()), None).unwrap();
    assert_eq!(path, "test/words_cli", "did not make path correctly");
}

#[test]
fn test_resolve_data_dir_empty_xdg() {
    match resolve_data_dir(Some("".to_string()), Some("/home/u".to_string())) {
        Err(err) => assert_eq!(
            err.message(),
            "XDG_DATA_HOME not set correctly and is empty",
            "got a different error then expected"
        ),
        Ok(_) => assert!(false, "some how got data in env var"),
    }
}

#[test]
fn test_resolve_data_dir_home_fallback() {
    let path = resolve_data_dir(None, Some("/home/u".to_string())).unwrap();
    assert_eq!(path, "/home/u/.local/share/words_cli");
}

#[test]
fn test_resolve_data_dir_nothing_set() {
    match resolve_data_dir(None, None) {
        Err(err) => assert_eq!(
            err.message(),
            "environment variables HOME and XDG_DATA_HOME are not set"
        ),
        Ok(_) => assert!(false, "a path appeared from nowhere"),
    }
}

#[test]
fn test_resolve_config_dir_home_fallback() {
    let path = resolve_config_dir(None, Some("/home/u".to_string())).unwrap();
    assert_eq!(path, "/home/u/.config/words_cli");
}

#[test]
fn test_resolve_config_file_path_override_wins() {
    let path = resolve_config_file_path(Some("/tmp/custom.toml".to_string()), None, None).unwrap();
    assert_eq!(path, "/tmp/custom.toml");
}

#[test]
fn test_resolve_config_file_path_conventional() {
    let path =
        resolve_config_file_path(None, Some("/home/u/.config".to_string()), None).unwrap();
    assert_eq!(path, "/home/u/.config/words_cli/words_cli.toml");
}

#[test]
fn test_cache_paths() {
    assert_eq!(cache_dir_path("/data/words_cli"), "/data/words_cli/cache");
    assert_eq!(
        cache_file_path("/data/words_cli", "monster"),
        "/data/words_cli/cache/monster"
    );
}

#[test]
fn test_request_url_default() {
    let opts = RequestOptions::default();
    assert_eq!(
        opts.request_url("monster"),
        "https://api.dictionaryapi.dev/api/v2/entries/en/monster"
    );
}

#[test]
fn test_check_status_not_found() {
    match check_status(404) {
        Err(WordsError::NotFound(m)) => assert_eq!(m, "No Definitions Found"),
        _ => assert!(false, "a 404 must map to the not-found error"),
    }
}

#[test]
fn test_check_status_ok() {
    assert!(check_status(200).is_ok());
    assert!(check_status(500).is_ok());
}

#[test]
fn test_words_error_messages() {
    assert_eq!(WordsError::Input("a".to_string()).message(), "a");
    assert_eq!(WordsError::NotFound("b".to_string()).message(), "b");
    assert_eq!(WordsError::Transport("c".to_string()).message(), "c");
    assert_eq!(WordsError::Decode("d".to_string()).message(), "d");
    assert_eq!(WordsError::Environment("e".to_string()).message(), "e");
    assert_eq!(WordsError::Filesystem("f".to_string()).message(), "f");
}

#[test]
fn test_word_action_new_suggest_wins() {
    let mut args = plain_args();
    args.suggest = Some("  flgrent ".to_string());
    args.define = Some("other".to_string());

    let action = WordAction::new(&args);
    assert_eq!(action.query, "flgrent", "query was not trimmed");
    match action.run().unwrap() {
        WordTask::Suggest(q) => assert_eq!(q, "flgrent"),
        WordTask::Define(_) => assert!(false, "suggest must win over define"),
    }
}

#[test]
fn test_word_action_new_define() {
    let mut args = plain_args();
    args.define = Some(" monster\n".to_string());

    let action = WordAction::new(&args);
    assert_eq!(action.query, "monster");
    match action.run().unwrap() {
        WordTask::Define(q) => assert_eq!(q, "monster"),
        WordTask::Suggest(_) => assert!(false, "expected a definition task"),
    }
}

#[test]
fn test_word_action_nothing_is_an_error() {
    let action = WordAction::default();
    match action.run() {
        Err(WordsError::Input(m)) => {
            assert_eq!(m, "nothing to do, this should not happen")
        }
        _ => assert!(false, "an empty action must fail"),
    }
}

#[test]
fn test_resolve_query_from_stdin() {
    let mut args = plain_args();
    args.define = Some("-".to_string());
    let action = WordAction::new(&args);

    assert!(action.needs_stdin());

    let q = action.resolve_query(Some("  monster \n")).unwrap();
    assert_eq!(q, "monster");
}

#[test]
fn test_resolve_query_empty_stdin_is_an_error() {
    let mut args = plain_args();
    args.define = Some("-".to_string());
    let action = WordAction::new(&args);

    match action.resolve_query(Some("")) {
        Err(WordsError::Input(m)) => assert_eq!(m, "nothing in stdin"),
        _ => assert!(false, "empty stdin must be an input error"),
    }
    match action.resolve_query(None) {
        Err(WordsError::Input(m)) => assert_eq!(m, "nothing in stdin"),
        _ => assert!(false, "missing stdin must be an input error"),
    }
}

#[test]
fn test_resolve_query_plain() {
    let mut args = plain_args();
    args.define = Some("monster".to_string());
    let action = WordAction::new(&args);

    assert!(!action.needs_stdin());
    assert_eq!(action.resolve_query(None).unwrap(), "monster");
}

#[test]
fn test_definition_plan_cache_hit_skips_fetch() {
    let data = monster_word_data();
    match definition_plan(Some(data)) {
        DefinePlan::UseCache(d) => assert_eq!(d.word, "monster"),
        DefinePlan::FetchAndStore => {
            assert!(false, "a cache hit must not reach for the network")
        }
    }
}

#[test]
fn test_definition_plan_cache_miss_fetches_and_stores() {
    assert!(matches!(definition_plan(None), DefinePlan::FetchAndStore));
}

#[test]
fn test_suggest_output_joins_lines() {
    let suggestions = Some(vec!["flagrant".to_string(), "fragrant".to_string()]);
    assert_eq!(suggest_output("flgrent", &suggestions), "flagrant\nfragrant");
    assert_eq!(suggest_output("flgrent", &None), "flgrent");
}

#[test]
fn test_collect_suggestions_no_findings() {
    let findings: Vec<Vec<String>> = vec![];
    assert!(collect_suggestions(&findings, "word").unwrap().is_none());
}

#[test]
fn test_collect_suggestions_flattens_in_order() {
    let findings = vec![
        vec!["flagrant".to_string(), "fragrant".to_string()],
        vec!["flagrancy".to_string()],
    ];
    let got = collect_suggestions(&findings, "flgrent").unwrap().unwrap();
    assert_eq!(got, vec!["flagrant", "fragrant", "flagrancy"]);
}

#[test]
fn test_collect_suggestions_empty_finding_is_an_error() {
    let findings = vec![vec!["flagrant".to_string()], vec![]];
    match collect_suggestions(&findings, "flgrent") {
        Err(WordsError::Input(m)) => assert_eq!(m, "no suggestion for flgrent"),
        _ => assert!(false, "a finding without suggestions must fail"),
    }
}

#[test]
fn test_apply_cli_overrides_no_formatting() {
    let mut conf = FormatterConfig::default();
    let mut args = plain_args();
    args.no_formatting = true;
    args.no_print = true;

    apply_cli_overrides(&mut conf, &args, 80, true);

    assert!(!conf.print);
    assert!(!conf.formatting);
    assert_eq!(conf.columns, 0);
    assert_eq!(conf.indent_by, 0);
    assert_eq!(conf.search_limit, 0);
    assert_eq!(conf.synonym_limit, 100);
    assert!(conf.style, "styling is independent of formatting");
}

#[test]
fn test_apply_cli_overrides_columns_from_terminal() {
    let mut conf = FormatterConfig::default();
    let args = plain_args();

    apply_cli_overrides(&mut conf, &args, 80, true);

    assert_eq!(conf.columns, 80, "columns must come from the terminal");
    assert!(conf.print);
    assert!(conf.formatting);
}

#[test]
fn test_apply_cli_overrides_explicit_columns() {
    let mut conf = FormatterConfig::default();
    let mut args = plain_args();
    args.columns = Some(42);

    apply_cli_overrides(&mut conf, &args, 80, true);

    assert_eq!(conf.columns, 42, "an explicit column count must win");
}

#[test]
fn test_apply_cli_overrides_pipe_clears_style() {
    let mut conf = FormatterConfig::default();
    let args = plain_args();

    apply_cli_overrides(&mut conf, &args, 80, false);

    assert!(!conf.style);
    assert!(conf.format_style.word.is_empty());
    assert!(conf.format_style.reset.is_empty());
}

#[test]
fn test_apply_cli_overrides_force_style_keeps_style() {
    let mut conf = FormatterConfig::default();
    let mut args = plain_args();
    args.force_style = true;

    apply_cli_overrides(&mut conf, &args, 80, false);

    assert!(conf.style);
    assert_eq!(conf.format_style.word, "\x1b[1m");
}
