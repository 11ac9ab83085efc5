//! Resolving the effective configuration: built-in defaults, then the
//! user file's sections field by field (a present field overwrites the
//! default, an absent one keeps it), then the command-line overrides.
//!
//! The shell reads and decodes the file; this module only merges the
//! values it found.

use vstd::prelude::*;

use crate::formatter::{is_cleared_style, is_default_style, FormatterConfig, FormatterStyle};
use crate::WordArgs;

verus! {

/// The style section of a user configuration file: every field
/// optional.
pub struct FormatStyle {
    pub word: Option<String>,
    pub part_of_speech: Option<String>,
    pub definition: Option<String>,
    pub example_title: Option<String>,
    pub example: Option<String>,
    pub synonyms_title: Option<String>,
    pub synonyms: Option<String>,
    pub reset: Option<String>,
}

/// The formatting section of a user configuration file: every field
/// optional.
pub struct FormatConfig {
    pub formating: Option<bool>,
    pub columns: Option<usize>,
    pub indent_by: Option<usize>,
    pub search_limit: Option<usize>,
    pub synonym_limit: Option<usize>,
}

/// A decoded user configuration file: either section may be absent.
pub struct WordsConfig {
    pub format_config: Option<FormatConfig>,
    pub format_style: Option<FormatStyle>,
}

/// A present user string wins; an absent one keeps the default.
pub open spec fn resolved_str(user: Option<String>, default: Seq<char>) -> Seq<char> {
    match user {
        Option::Some(s) => s@,
        Option::None => default,
    }
}

/// A present user number wins; an absent one keeps the default.
pub open spec fn resolved_num(user: Option<usize>, default: usize) -> usize {
    match user {
        Option::Some(n) => n,
        Option::None => default,
    }
}

/// The style that merging one user style section over the defaults
/// produces, field by field.
pub open spec fn style_resolved(user: FormatStyle, out: FormatterStyle) -> bool {
    &&& out.word@ == resolved_str(user.word, "\x1b[1m"@)
    &&& out.part_of_speech@ == resolved_str(user.part_of_speech, "\x1b[1m"@)
    &&& out.definition@ == resolved_str(user.definition, "\x1b[0m"@)
    &&& out.example_title@ == resolved_str(user.example_title, "\x1b[4m"@)
    &&& out.example@ == resolved_str(user.example, "\x1b[3m"@)
    &&& out.synonyms_title@ == resolved_str(user.synonyms_title, "\x1b[4m"@)
    &&& out.synonyms@ == resolved_str(user.synonyms, "\x1b[0m"@)
    &&& out.reset@ == resolved_str(user.reset, "\x1b[0m"@)
}

/// Every field of the style section has been consumed.
pub open spec fn style_all_taken(st: FormatStyle) -> bool {
    &&& st.word is None
    &&& st.part_of_speech is None
    &&& st.definition is None
    &&& st.example_title is None
    &&& st.example is None
    &&& st.synonyms_title is None
    &&& st.synonyms is None
    &&& st.reset is None
}

/// The configuration that merging one user formatting section over
/// the defaults produces, field by field.
pub open spec fn formatter_config_resolved(user: FormatConfig, out: FormatterConfig) -> bool {
    &&& out.print
    &&& out.style
    &&& out.formatting
    &&& out.columns == resolved_num(user.columns, 0)
    &&& out.indent_by == resolved_num(user.indent_by, 2)
    &&& out.search_limit == resolved_num(user.search_limit, 10)
    &&& out.synonym_limit == resolved_num(user.synonym_limit, 5)
    &&& is_default_style(out.format_style)
}

/// The formatting-section fields of a whole user configuration, absent
/// when the section itself is absent.
pub open spec fn user_columns(wc: WordsConfig) -> Option<usize> {
    match wc.format_config {
        Option::Some(fc) => fc.columns,
        Option::None => Option::None,
    }
}

/// See [`user_columns`].
pub open spec fn user_indent_by(wc: WordsConfig) -> Option<usize> {
    match wc.format_config {
        Option::Some(fc) => fc.indent_by,
        Option::None => Option::None,
    }
}

/// See [`user_columns`].
pub open spec fn user_search_limit(wc: WordsConfig) -> Option<usize> {
    match wc.format_config {
        Option::Some(fc) => fc.search_limit,
        Option::None => Option::None,
    }
}

/// See [`user_columns`].
pub open spec fn user_synonym_limit(wc: WordsConfig) -> Option<usize> {
    match wc.format_config {
        Option::Some(fc) => fc.synonym_limit,
        Option::None => Option::None,
    }
}

/// The configuration that resolving a whole user file over the
/// defaults produces: numeric fields from the formatting section,
/// style strings from the style section, defaults elsewhere.
pub open spec fn config_resolved(wc: WordsConfig, out: FormatterConfig) -> bool {
    &&& out.print
    &&& out.style
    &&& out.formatting
    &&& out.columns == resolved_num(user_columns(wc), 0)
    &&& out.indent_by == resolved_num(user_indent_by(wc), 2)
    &&& out.search_limit == resolved_num(user_search_limit(wc), 10)
    &&& out.synonym_limit == resolved_num(user_synonym_limit(wc), 5)
    &&& match wc.format_style {
        Option::Some(st) => style_resolved(st, out.format_style),
        Option::None => is_default_style(out.format_style),
    }
}

impl WordsConfig {
    /// Merge the user style section over the default style, consuming
    /// its fields; nothing happens when the section is absent.
    pub fn resolve_style(&mut self) -> (r: Option<FormatterStyle>)
        ensures
            match old(self).format_style {
                Option::None => r is None && *final(self) == *old(self),
                Option::Some(st) => {
                    &&& r matches Some(fs) && style_resolved(st, fs)
                    &&& final(self).format_config == old(self).format_config
                    &&& final(self).format_style matches Some(rest) && style_all_taken(rest)
                },
            },
    {
        let style_opt = self.format_style.take();
        match style_opt {
            Option::Some(style) => {
                let mut format_style = FormatterStyle::default();
                match style.word {
                    Option::Some(word) => { format_style.word = word },
                    Option::None => {},
                }
                match style.part_of_speech {
                    Option::Some(part_of_speech) => {
                        format_style.part_of_speech = part_of_speech
                    },
                    Option::None => {},
                }
                match style.definition {
                    Option::Some(definition) => { format_style.definition = definition },
                    Option::None => {},
                }
                match style.example_title {
                    Option::Some(example_title) => { format_style.example_title = example_title },
                    Option::None => {},
                }
                match style.example {
                    Option::Some(example) => { format_style.example = example },
                    Option::None => {},
                }
                match style.synonyms_title {
                    Option::Some(synonyms_title) => {
                        format_style.synonyms_title = synonyms_title
                    },
                    Option::None => {},
                }
                match style.synonyms {
                    Option::Some(synonyms) => { format_style.synonyms = synonyms },
                    Option::None => {},
                }
                match style.reset {
                    Option::Some(reset) => { format_style.reset = reset },
                    Option::None => {},
                }
                self.format_style = Option::Some(
                    FormatStyle {
                        word: Option::None,
                        part_of_speech: Option::None,
                        definition: Option::None,
                        example_title: Option::None,
                        example: Option::None,
                        synonyms_title: Option::None,
                        synonyms: Option::None,
                        reset: Option::None,
                    },
                );
                Option::Some(format_style)
            },
            Option::None => Option::None,
        }
    }

    /// Merge the user formatting section over the default
    /// configuration; nothing happens when the section is absent.
    pub fn resolve_formatter_config(&mut self) -> (r: Option<FormatterConfig>)
        ensures
            *final(self) == *old(self),
            match old(self).format_config {
                Option::None => r is None,
                Option::Some(fc) => r matches Some(conf) && formatter_config_resolved(fc, conf),
            },
    {
        match &self.format_config {
            Option::Some(config) => {
                let mut new_config = FormatterConfig::default();
                match config.columns {
                    Option::Some(columns) => { new_config.columns = columns },
                    Option::None => {},
                }
                match config.indent_by {
                    Option::Some(indent_by) => { new_config.indent_by = indent_by },
                    Option::None => {},
                }
                match config.search_limit {
                    Option::Some(search_limit) => { new_config.search_limit = search_limit },
                    Option::None => {},
                }
                match config.synonym_limit {
                    Option::Some(synonym_limit) => { new_config.synonym_limit = synonym_limit },
                    Option::None => {},
                }
                Option::Some(new_config)
            },
            Option::None => Option::None,
        }
    }

    /// Resolve a whole user file: the formatting section over the
    /// defaults, then the style section over the default style.
    pub fn resolve_config(&mut self) -> (r: FormatterConfig)
        ensures
            config_resolved(*old(self), r),
            final(self).format_config == old(self).format_config,
            match old(self).format_style {
                Option::None => final(self).format_style is None,
                Option::Some(_) => final(self).format_style matches Some(rest)
                    && style_all_taken(rest),
            },
    {
        let mut config = match self.resolve_formatter_config() {
            Option::Some(conf) => conf,
            Option::None => FormatterConfig::default(),
        };
        match self.resolve_style() {
            Option::Some(style) => { config.format_style = style },
            Option::None => {},
        }
        config
    }
}

/// Apply the command-line overrides to a resolved configuration:
/// `no_print` suppresses printing; `no_formatting` turns formatting
/// off and clears every numeric formatting field; otherwise an
/// explicit column count, or the terminal's width, sets `columns`;
/// `no_style`, or a non-terminal standard output without `force_style`,
/// clears every style string.
pub fn apply_cli_overrides(
    config: &mut FormatterConfig,
    args: &WordArgs,
    tty_cols: usize,
    stdout_is_tty: bool,
)
    ensures
        final(config).print == !args.no_print,
        args.no_formatting ==> {
            &&& !final(config).formatting
            &&& final(config).columns == 0
            &&& final(config).indent_by == 0
            &&& final(config).search_limit == 0
            &&& final(config).synonym_limit == 100
        },
        !args.no_formatting ==> {
            &&& final(config).formatting == old(config).formatting
            &&& final(config).columns == resolved_num(args.columns, tty_cols)
            &&& final(config).indent_by == old(config).indent_by
            &&& final(config).search_limit == old(config).search_limit
            &&& final(config).synonym_limit == old(config).synonym_limit
        },
        (args.no_style || (!args.force_style && !stdout_is_tty)) ==> !final(config).style
            && is_cleared_style(final(config).format_style),
        !(args.no_style || (!args.force_style && !stdout_is_tty)) ==> final(config).style == old(
            config,
        ).style && final(config).format_style == old(config).format_style,
{
    config.print = !args.no_print;

    if args.no_formatting {
        config.formatting = false;
        config.clear_formating();
    } else {
        match args.columns {
            Option::Some(columns) => { config.columns = columns },
            Option::None => { config.columns = tty_cols },
        }
    }

    if args.no_style || (!args.force_style && !stdout_is_tty) {
        config.style = false;
        config.clear_style();
    }
}

/// Resolving with no user configuration file present yields exactly
/// the built-in defaults.
pub proof fn lemma_resolve_defaults(wc: WordsConfig, out: FormatterConfig)
    requires
        wc.format_config is None,
        wc.format_style is None,
        config_resolved(wc, out),
    ensures
        out.print,
        out.style,
        out.formatting,
        out.columns == 0,
        out.indent_by == 2,
        out.search_limit == 10,
        out.synonym_limit == 5,
        is_default_style(out.format_style),
{
}

/// A user file that sets only `columns` changes only `columns`: every
/// other field keeps its default.
pub proof fn lemma_resolve_only_columns(wc: WordsConfig, out: FormatterConfig, c: usize)
    requires
        wc.format_style is None,
        wc.format_config matches Some(fc) && fc.columns == Some(c) && fc.indent_by is None
            && fc.search_limit is None && fc.synonym_limit is None,
        config_resolved(wc, out),
    ensures
        out.columns == c,
        out.print,
        out.style,
        out.formatting,
        out.indent_by == 2,
        out.search_limit == 10,
        out.synonym_limit == 5,
        is_default_style(out.format_style),
{
}

} // verus!
