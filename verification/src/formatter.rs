//! Rendering a dictionary entry for the terminal: styles, the
//! effective formatter configuration, and the renderer that walks a
//! word's meanings and produces styled, indented, column-bounded text.

use vstd::prelude::*;
use vstd::string::*;

use crate::dict_api::{Definition, Meaning, WordData};
use crate::line_break::{scan_break_end, seg_end, wrap_segments, wrapped};

verus! {

/// How to style each part of a rendered definition: an arbitrary
/// prefix (typically an ANSI escape sequence) applied before the
/// segment, closed by `reset`.
pub struct FormatterStyle {
    pub word: String,
    pub part_of_speech: String,
    pub definition: String,
    pub example_title: String,
    pub example: String,
    pub synonyms_title: String,
    pub synonyms: String,
    pub reset: String,
}

/// The built-in style: bold word and part of speech, underlined
/// titles, italic example body, plain everything else.
pub open spec fn is_default_style(s: FormatterStyle) -> bool {
    &&& s.word@ == "\x1b[1m"@
    &&& s.part_of_speech@ == "\x1b[1m"@
    &&& s.definition@ == "\x1b[0m"@
    &&& s.example_title@ == "\x1b[4m"@
    &&& s.example@ == "\x1b[3m"@
    &&& s.synonyms_title@ == "\x1b[4m"@
    &&& s.synonyms@ == "\x1b[0m"@
    &&& s.reset@ == "\x1b[0m"@
}

/// Every style string is empty: no escape codes are emitted at all.
pub open spec fn is_cleared_style(s: FormatterStyle) -> bool {
    &&& s.word@ == Seq::<char>::empty()
    &&& s.part_of_speech@ == Seq::<char>::empty()
    &&& s.definition@ == Seq::<char>::empty()
    &&& s.example_title@ == Seq::<char>::empty()
    &&& s.example@ == Seq::<char>::empty()
    &&& s.synonyms_title@ == Seq::<char>::empty()
    &&& s.synonyms@ == Seq::<char>::empty()
    &&& s.reset@ == Seq::<char>::empty()
}

impl Default for FormatterStyle {
    fn default() -> (r: Self)
        ensures
            is_default_style(r),
    {
        FormatterStyle {
            word: String::from_str("\x1b[1m"),
            part_of_speech: String::from_str("\x1b[1m"),
            definition: String::from_str("\x1b[0m"),
            example_title: String::from_str("\x1b[4m"),
            example: String::from_str("\x1b[3m"),
            synonyms_title: String::from_str("\x1b[4m"),
            synonyms: String::from_str("\x1b[0m"),
            reset: String::from_str("\x1b[0m"),
        }
    }
}

/// The effective configuration the renderer works from.
pub struct FormatterConfig {
    pub print: bool,
    pub style: bool,
    pub formatting: bool,
    pub format_style: FormatterStyle,
    pub columns: usize,
    pub indent_by: usize,
    pub search_limit: usize,
    pub synonym_limit: usize,
}

impl FormatterConfig {
    /// Clear every style string, so no escape codes are emitted; the
    /// formatting fields are untouched.
    pub fn clear_style(&mut self)
        ensures
            !final(self).style,
            is_cleared_style(final(self).format_style),
            final(self).print == old(self).print,
            final(self).formatting == old(self).formatting,
            final(self).columns == old(self).columns,
            final(self).indent_by == old(self).indent_by,
            final(self).search_limit == old(self).search_limit,
            final(self).synonym_limit == old(self).synonym_limit,
    {
        self.style = false;
        self.format_style.word = String::new();
        self.format_style.part_of_speech = String::new();
        self.format_style.definition = String::new();
        self.format_style.example_title = String::new();
        self.format_style.example = String::new();
        self.format_style.synonyms_title = String::new();
        self.format_style.synonyms = String::new();
        self.format_style.reset = String::new();
    }

    /// Turn formatting off: no wrapping, no indentation, no backward
    /// search, and the synonym cap widened to a practical "unlimited".
    pub fn clear_formating(&mut self)
        ensures
            !final(self).formatting,
            final(self).columns == 0,
            final(self).indent_by == 0,
            final(self).search_limit == 0,
            final(self).synonym_limit == 100,
            final(self).print == old(self).print,
            final(self).style == old(self).style,
            final(self).format_style == old(self).format_style,
    {
        self.formatting = false;
        self.columns = 0;
        self.indent_by = 0;
        self.search_limit = 0;
        self.synonym_limit = 100;
    }
}

impl Default for FormatterConfig {
    /// The built-in defaults: print, style, and format; unbounded
    /// columns, two-space indent, a ten-character backward search, and
    /// at most five synonyms.
    fn default() -> (r: Self)
        ensures
            r.print,
            r.style,
            r.formatting,
            r.columns == 0,
            r.indent_by == 2,
            r.search_limit == 10,
            r.synonym_limit == 5,
            is_default_style(r.format_style),
    {
        FormatterConfig {
            print: true,
            style: true,
            formatting: true,
            columns: 0,
            indent_by: 2,
            format_style: FormatterStyle::default(),
            search_limit: 10,
            synonym_limit: 5,
        }
    }
}

/// One rendered line: indent, then the style prefix, then the
/// segment, closed by the reset string.
pub open spec fn decorate(
    spaces: Seq<char>,
    style: Seq<char>,
    seg: Seq<char>,
    reset: Seq<char>,
) -> Seq<char> {
    spaces + style + seg + reset
}

/// Every segment decorated the same way, in order.
pub open spec fn decorate_all(
    spaces: Seq<char>,
    style: Seq<char>,
    segs: Seq<Seq<char>>,
    reset: Seq<char>,
) -> Seq<Seq<char>> {
    segs.map_values(|seg: Seq<char>| decorate(spaces, style, seg, reset))
}

/// What formatting one line produces: when a column limit is set and
/// the indented line exceeds it, the line is wrapped to the width that
/// remains beside the indent; otherwise it stays one line. Every
/// produced line carries the indent, the style, and the reset.
pub open spec fn format_line_spec(
    conf: FormatterConfig,
    style: Seq<char>,
    spaces: Seq<char>,
    line: Seq<char>,
) -> Seq<Seq<char>> {
    if conf.columns != 0 && spaces.len() + line.len() > conf.columns {
        decorate_all(
            spaces,
            style,
            wrapped(
                line,
                conf.columns as int - spaces.len() as int,
                conf.search_limit as int,
            ),
            conf.format_style.reset@,
        )
    } else {
        seq![decorate(spaces, style, line, conf.format_style.reset@)]
    }
}

/// Break one line into column-bounded segments and decorate each with
/// the indent, the style prefix, and the reset string.
pub fn break_line(
    config: &FormatterConfig,
    line_break: usize,
    line_style: &str,
    spaces: &str,
    line: &str,
) -> (output: Vec<String>)
    requires
        1 <= line_break,
    ensures
        output@.map_values(|s: String| s@) == decorate_all(
            spaces@,
            line_style@,
            wrap_segments(line@, line_break as int, config.search_limit as int),
            config.format_style.reset@,
        ),
{
    let ghost full = wrap_segments(line@, line_break as int, config.search_limit as int);
    let ghost reset_view = config.format_style.reset@;
    let len: usize = line.unicode_len();
    let mut output: Vec<String> = Vec::new();
    let ghost mut done = Seq::<Seq<char>>::empty();
    let mut start: usize = 0;
    proof {
        assert(line@.subrange(0, len as int) =~= line@);
        assert(output@.map_values(|s: String| s@) =~= decorate_all(
            spaces@,
            line_style@,
            done,
            reset_view,
        ));
    }
    while start < len
        invariant
            start <= len,
            len == line@.len(),
            1 <= line_break,
            full == wrap_segments(line@, line_break as int, config.search_limit as int),
            reset_view == config.format_style.reset@,
            output@.map_values(|s: String| s@) == decorate_all(
                spaces@,
                line_style@,
                done,
                reset_view,
            ),
            done + wrap_segments(
                line@.subrange(start as int, len as int),
                line_break as int,
                config.search_limit as int,
            ) == full,
        decreases len - start,
    {
        let ghost rest = line@.subrange(start as int, len as int);
        let end: usize = if len - start < line_break {
            len
        } else {
            scan_break_end(line, start, line_break, config.search_limit)
        };
        assert(start < end <= len);
        let seg = line.substring_char(start, end);
        assert(seg@ == rest.subrange(0, end - start)) by {
            assert(line@.subrange(start as int, end as int) =~= rest.subrange(0, end - start));
        }
        proof {
            if len - start < line_break {
                assert(wrap_segments(rest, line_break as int, config.search_limit as int)
                    == seq![rest]);
                assert(seg@ =~= rest);
            } else {
                assert(end - start == seg_end(rest, line_break as int, config.search_limit as int));
                assert(rest.subrange(end - start, rest.len() as int) =~= line@.subrange(
                    end as int,
                    len as int,
                ));
            }
            let w_rest = wrap_segments(rest, line_break as int, config.search_limit as int);
            let w_next = wrap_segments(
                line@.subrange(end as int, len as int),
                line_break as int,
                config.search_limit as int,
            );
            assert(w_rest == seq![seg@] + w_next);
            assert(done.push(seg@) + w_next =~= done + w_rest);
        }
        let mut n_line = String::new();
        n_line.append(spaces);
        n_line.append(line_style);
        n_line.append(seg);
        n_line.append(config.format_style.reset.as_str());
        assert(n_line@ =~= decorate(spaces@, line_style@, seg@, reset_view));
        output.push(n_line);
        proof {
            let prev = done;
            done = done.push(seg@);
            assert(decorate_all(spaces@, line_style@, done, reset_view) =~= decorate_all(
                spaces@,
                line_style@,
                prev,
                reset_view,
            ).push(decorate(spaces@, line_style@, seg@, reset_view)));
            assert(output@.map_values(|s: String| s@) =~= decorate_all(
                spaces@,
                line_style@,
                prev,
                reset_view,
            ).push(decorate(spaces@, line_style@, seg@, reset_view)));
        }
        start = end;
    }
    proof {
        assert(wrap_segments(
            line@.subrange(start as int, len as int),
            line_break as int,
            config.search_limit as int,
        ) =~= Seq::<Seq<char>>::empty());
        assert(done =~= full);
    }
    output
}

/// Format one line under the configuration: wrap it when a column
/// limit is set and the indented line exceeds it, and decorate every
/// produced line with the indent, the style prefix, and the reset.
pub fn format_line(config: &FormatterConfig, style: &str, spaces: &str, line: &str) -> (r: Vec<
    String,
>)
    requires
        config.columns != 0 ==> spaces@.len() < config.columns,
    ensures
        r@.map_values(|s: String| s@) == format_line_spec(*config, style@, spaces@, line@),
{
    if config.columns != 0 {
        let spaces_len = spaces.unicode_len();
        let line_len = line.unicode_len();
        if line_len > config.columns - spaces_len {
            let r = break_line(config, config.columns - spaces_len, style, spaces, line);
            assert(line@.len() > config.columns as int - spaces@.len() as int);
            return r;
        }
    }
    let mut n_line = String::new();
    n_line.append(spaces);
    n_line.append(style);
    n_line.append(line);
    n_line.append(config.format_style.reset.as_str());
    assert(n_line@ =~= decorate(spaces@, style@, line@, config.format_style.reset@));
    let mut out: Vec<String> = Vec::new();
    out.push(n_line);
    proof {
        assert(out@.map_values(|s: String| s@) =~= seq![
            decorate(spaces@, style@, line@, config.format_style.reset@),
        ]);
    }
    out
}

/// `n` space characters.
pub open spec fn spaces_seq(n: nat) -> Seq<char> {
    Seq::new(n, |i: int| ' ')
}

/// One indent unit: the part-of-speech indent.
pub open spec fn one_indent(conf: FormatterConfig) -> Seq<char> {
    spaces_seq(conf.indent_by as nat)
}

/// The indent of definitions and section titles: two units.
pub open spec fn def_indent(conf: FormatterConfig) -> Seq<char> {
    one_indent(conf) + one_indent(conf)
}

/// The indent of example and synonym bodies: three units.
pub open spec fn body_indent(conf: FormatterConfig) -> Seq<char> {
    one_indent(conf) + one_indent(conf) + one_indent(conf)
}

/// A blank separator line, present only when formatting is on.
pub open spec fn blank_sep(conf: FormatterConfig) -> Seq<Seq<char>> {
    if conf.formatting {
        seq![Seq::<char>::empty()]
    } else {
        Seq::<Seq<char>>::empty()
    }
}

/// The blank line after item `i` of `total`: present only when
/// formatting is on, there are several items, and `i` is not the last.
pub open spec fn sep_at(conf: FormatterConfig, total: int, i: int) -> Seq<Seq<char>> {
    if conf.formatting && total > 1 && i + 1 != total {
        seq![Seq::<char>::empty()]
    } else {
        Seq::<Seq<char>>::empty()
    }
}

/// The lines an example adds to its definition: a separator, the
/// "example" title, and the wrapped example text.
pub open spec fn example_block(conf: FormatterConfig, d: Definition) -> Seq<Seq<char>> {
    match d.example {
        Option::Some(ex) => blank_sep(conf) + format_line_spec(
            conf,
            conf.format_style.example_title@,
            def_indent(conf),
            "example"@,
        ) + format_line_spec(conf, conf.format_style.example@, body_indent(conf), ex@),
        Option::None => Seq::<Seq<char>>::empty(),
    }
}

/// The wrapped lines of the first `k` synonyms.
pub open spec fn syn_lines(conf: FormatterConfig, syns: Seq<String>, k: int) -> Seq<Seq<char>>
    decreases k,
{
    if k <= 0 {
        Seq::<Seq<char>>::empty()
    } else {
        syn_lines(conf, syns, k - 1) + format_line_spec(
            conf,
            conf.format_style.synonyms@,
            body_indent(conf),
            syns[k - 1]@,
        )
    }
}

/// How many synonyms are rendered: the list, capped at the limit.
pub open spec fn syn_count(conf: FormatterConfig, syns: Seq<String>) -> int {
    if conf.synonym_limit as int <= syns.len() {
        conf.synonym_limit as int
    } else {
        syns.len() as int
    }
}

/// The lines the synonyms add to their definition: when the limit is
/// zero or there are none, nothing at all — neither title nor body;
/// otherwise a separator, the "synonyms" title, and the capped list.
pub open spec fn synonyms_block(conf: FormatterConfig, d: Definition) -> Seq<Seq<char>> {
    if conf.synonym_limit > 0 {
        match d.synonyms {
            Option::Some(syns) => blank_sep(conf) + seq![
                decorate(
                    def_indent(conf),
                    conf.format_style.synonyms_title@,
                    "synonyms"@,
                    conf.format_style.reset@,
                ),
            ] + syn_lines(conf, syns@, syn_count(conf, syns@)),
            Option::None => Seq::<Seq<char>>::empty(),
        }
    } else {
        Seq::<Seq<char>>::empty()
    }
}

/// All lines of one definition: its wrapped text, then its example
/// section, then its synonyms section.
pub open spec fn definition_block(conf: FormatterConfig, d: Definition) -> Seq<Seq<char>> {
    format_line_spec(conf, conf.format_style.definition@, def_indent(conf), d.definition@)
        + example_block(conf, d) + synonyms_block(conf, d)
}

/// All lines of the first `k` definitions, with a blank separator
/// after each one that is followed by another.
pub open spec fn defs_lines(conf: FormatterConfig, defs: Seq<Definition>, k: int) -> Seq<Seq<char>>
    decreases k,
{
    if k <= 0 {
        Seq::<Seq<char>>::empty()
    } else {
        defs_lines(conf, defs, k - 1) + definition_block(conf, defs[k - 1]) + sep_at(
            conf,
            defs.len() as int,
            k - 1,
        )
    }
}

/// All lines of one meaning: its part-of-speech heading, then its
/// definitions.
pub open spec fn meaning_block(conf: FormatterConfig, m: Meaning) -> Seq<Seq<char>> {
    format_line_spec(conf, conf.format_style.part_of_speech@, one_indent(conf), m.partOfSpeech@)
        + defs_lines(conf, m.definitions@, m.definitions@.len() as int)
}

/// All lines of the first `k` meanings, with a blank separator after
/// each one that is followed by another.
pub open spec fn meanings_lines(conf: FormatterConfig, ms: Seq<Meaning>, k: int) -> Seq<Seq<char>>
    decreases k,
{
    if k <= 0 {
        Seq::<Seq<char>>::empty()
    } else {
        meanings_lines(conf, ms, k - 1) + meaning_block(conf, ms[k - 1]) + sep_at(
            conf,
            ms.len() as int,
            k - 1,
        )
    }
}

/// Every line of a rendered entry, in order: the word heading, then
/// each meaning.
pub open spec fn word_data_lines(conf: FormatterConfig, data: WordData) -> Seq<Seq<char>> {
    format_line_spec(conf, conf.format_style.word@, Seq::<char>::empty(), data.word@)
        + meanings_lines(conf, data.meanings@, data.meanings@.len() as int)
}

/// What separates rendered lines: a newline when formatting, a single
/// space otherwise.
pub open spec fn line_sep(conf: FormatterConfig) -> Seq<char> {
    if conf.formatting {
        "\n"@
    } else {
        " "@
    }
}

/// All lines joined by the separator.
pub open spec fn join_lines(lines: Seq<Seq<char>>, sep: Seq<char>) -> Seq<char>
    decreases lines.len(),
{
    if lines.len() == 0 {
        Seq::<char>::empty()
    } else if lines.len() == 1 {
        lines[0]
    } else {
        join_lines(lines.drop_last(), sep) + sep + lines.last()
    }
}

/// The whole rendered entry: its lines joined by the separator.
pub open spec fn rendered(conf: FormatterConfig, data: WordData) -> Seq<char> {
    join_lines(word_data_lines(conf, data), line_sep(conf))
}

/// Two definitions that agree on everything but their synonyms.
pub open spec fn same_but_synonyms_def(a: Definition, b: Definition) -> bool {
    a.definition == b.definition && a.example == b.example
}

/// Two meanings that agree on everything but their synonyms.
pub open spec fn same_but_synonyms_meaning(a: Meaning, b: Meaning) -> bool {
    &&& a.partOfSpeech == b.partOfSpeech
    &&& a.definitions@.len() == b.definitions@.len()
    &&& forall|i: int|
        0 <= i < a.definitions@.len() ==> #[trigger] same_but_synonyms_def(
            a.definitions@[i],
            b.definitions@[i],
        )
}

/// Two entries that agree on everything but their synonyms.
pub open spec fn same_but_synonyms(a: WordData, b: WordData) -> bool {
    &&& a.word == b.word
    &&& a.meanings@.len() == b.meanings@.len()
    &&& forall|i: int|
        0 <= i < a.meanings@.len() ==> #[trigger] same_but_synonyms_meaning(
            a.meanings@[i],
            b.meanings@[i],
        )
}

proof fn lemma_defs_lines_ignore_synonyms(
    conf: FormatterConfig,
    da: Seq<Definition>,
    db: Seq<Definition>,
    k: int,
)
    requires
        conf.synonym_limit == 0,
        da.len() == db.len(),
        k <= da.len(),
        forall|i: int|
            0 <= i < da.len() ==> #[trigger] same_but_synonyms_def(da[i], db[i]),
    ensures
        defs_lines(conf, da, k) == defs_lines(conf, db, k),
    decreases k,
{
    if k > 0 {
        lemma_defs_lines_ignore_synonyms(conf, da, db, k - 1);
        assert(definition_block(conf, da[k - 1]) == definition_block(conf, db[k - 1])) by {
            assert(same_but_synonyms_def(da[k - 1], db[k - 1]));
            assert(synonyms_block(conf, da[k - 1]) == Seq::<Seq<char>>::empty());
            assert(synonyms_block(conf, db[k - 1]) == Seq::<Seq<char>>::empty());
        }
    }
}

proof fn lemma_meanings_lines_ignore_synonyms(
    conf: FormatterConfig,
    ma: Seq<Meaning>,
    mb: Seq<Meaning>,
    k: int,
)
    requires
        conf.synonym_limit == 0,
        ma.len() == mb.len(),
        k <= ma.len(),
        forall|i: int|
            0 <= i < ma.len() ==> #[trigger] same_but_synonyms_meaning(ma[i], mb[i]),
    ensures
        meanings_lines(conf, ma, k) == meanings_lines(conf, mb, k),
    decreases k,
{
    if k > 0 {
        lemma_meanings_lines_ignore_synonyms(conf, ma, mb, k - 1);
        assert(meaning_block(conf, ma[k - 1]) == meaning_block(conf, mb[k - 1])) by {
            assert(same_but_synonyms_meaning(ma[k - 1], mb[k - 1]));
            lemma_defs_lines_ignore_synonyms(
                conf,
                ma[k - 1].definitions@,
                mb[k - 1].definitions@,
                ma[k - 1].definitions@.len() as int,
            );
        }
    }
}

/// A synonym limit of zero omits the synonyms section entirely —
/// neither its title nor its body is emitted: two entries that differ
/// only in their synonyms render identically.
pub proof fn lemma_synonym_limit_zero_omits_synonyms(
    conf: FormatterConfig,
    a: WordData,
    b: WordData,
)
    requires
        conf.synonym_limit == 0,
        same_but_synonyms(a, b),
    ensures
        rendered(conf, a) == rendered(conf, b),
{
    lemma_meanings_lines_ignore_synonyms(
        conf,
        a.meanings@,
        b.meanings@,
        a.meanings@.len() as int,
    );
}

/// A string of `n` spaces.
fn make_spaces(n: usize) -> (s: String)
    ensures
        s@ == spaces_seq(n as nat),
{
    let mut s = String::new();
    proof {
        assert(s@ =~= spaces_seq(0));
    }
    let mut i: usize = 0;
    while i < n
        invariant
            i <= n,
            s@ == spaces_seq(i as nat),
        decreases n - i,
    {
        s.append(" ");
        proof {
            reveal_strlit(" ");
            assert(s@ =~= spaces_seq((i + 1) as nat));
        }
        i = i + 1;
    }
    s
}

/// Join the lines with the separator.
pub(crate) fn join_strings(lines: &Vec<String>, sep: &str) -> (r: String)
    ensures
        r@ == join_lines(lines@.map_values(|s: String| s@), sep@),
{
    let ghost views = lines@.map_values(|s: String| s@);
    let mut r = String::new();
    proof {
        assert(views.take(0) =~= Seq::<Seq<char>>::empty());
    }
    let mut i: usize = 0;
    while i < lines.len()
        invariant
            i <= lines@.len(),
            views == lines@.map_values(|s: String| s@),
            r@ == join_lines(views.take(i as int), sep@),
        decreases lines@.len() - i,
    {
        if i > 0 {
            r.append(sep);
        }
        let line: &String = &lines[i];
        r.append(line.as_str());
        proof {
            assert(views.take(i + 1).drop_last() =~= views.take(i as int));
            assert(views.take(i + 1).last() == line@);
            if i == 0 {
                assert(r@ =~= join_lines(views.take(1), sep@));
            }
        }
        i = i + 1;
    }
    proof {
        assert(views.take(lines@.len() as int) =~= views);
    }
    r
}

/// Append the example section of one definition: nothing when there
/// is no example; otherwise a separator, the "example" title, and the
/// wrapped example text.
fn push_example_block(
    output: &mut Vec<String>,
    format_conf: &FormatterConfig,
    d: &Definition,
    def_spaces: &str,
    exa_spaces: &str,
)
    requires
        format_conf.columns != 0 ==> 3 * (format_conf.indent_by as int) < (
        format_conf.columns as int),
        def_spaces@ == def_indent(*format_conf),
        exa_spaces@ == body_indent(*format_conf),
    ensures
        final(output)@.map_values(|s: String| s@) == old(output)@.map_values(|s: String| s@)
            + example_block(*format_conf, *d),
{
    let ghost conf = *format_conf;
    let ghost base = output@.map_values(|s: String| s@);
    match &d.example {
        Option::Some(example) => {
            let ghost mut lines = base;
            if format_conf.formatting {
                output.push(String::new());
                proof {
                    assert(output@.map_values(|s: String| s@) =~= lines + seq![
                        Seq::<char>::empty(),
                    ]);
                    lines = lines + seq![Seq::<char>::empty()];
                }
            }
            proof {
                assert(lines =~= base + blank_sep(conf));
            }
            let mut title_lines = format_line(
                format_conf,
                format_conf.format_style.example_title.as_str(),
                def_spaces,
                "example",
            );
            let ghost title_spec = format_line_spec(
                conf,
                conf.format_style.example_title@,
                def_indent(conf),
                "example"@,
            );
            output.append(&mut title_lines);
            proof {
                assert(output@.map_values(|s: String| s@) =~= lines + title_spec);
                lines = lines + title_spec;
            }
            let mut example_lines = format_line(
                format_conf,
                format_conf.format_style.example.as_str(),
                exa_spaces,
                example.as_str(),
            );
            let ghost ex_spec = format_line_spec(
                conf,
                conf.format_style.example@,
                body_indent(conf),
                example@,
            );
            output.append(&mut example_lines);
            proof {
                assert(output@.map_values(|s: String| s@) =~= lines + ex_spec);
                lines = lines + ex_spec;
                assert(lines =~= base + example_block(conf, *d));
            }
        },
        Option::None => {
            proof {
                assert(output@.map_values(|s: String| s@) =~= base + example_block(conf, *d));
            }
        },
    }
}

/// Append the synonyms section of one definition: nothing when the
/// limit is zero or there are no synonyms — neither title nor body;
/// otherwise a separator, the "synonyms" title, and the capped list.
fn push_synonyms_block(
    output: &mut Vec<String>,
    format_conf: &FormatterConfig,
    d: &Definition,
    def_spaces: &str,
    exa_spaces: &str,
)
    requires
        format_conf.columns != 0 ==> 3 * (format_conf.indent_by as int) < (
        format_conf.columns as int),
        def_spaces@ == def_indent(*format_conf),
        exa_spaces@ == body_indent(*format_conf),
    ensures
        final(output)@.map_values(|s: String| s@) == old(output)@.map_values(|s: String| s@)
            + synonyms_block(*format_conf, *d),
{
    let ghost conf = *format_conf;
    let ghost base = output@.map_values(|s: String| s@);
    if format_conf.synonym_limit > 0 {
        match &d.synonyms {
            Option::Some(syns) => {
                let ghost mut lines = base;
                if format_conf.formatting {
                    output.push(String::new());
                    proof {
                        assert(output@.map_values(|s: String| s@) =~= lines + seq![
                            Seq::<char>::empty(),
                        ]);
                        lines = lines + seq![Seq::<char>::empty()];
                    }
                }
                let mut synonyms_title = String::new();
                synonyms_title.append(def_spaces);
                synonyms_title.append(format_conf.format_style.synonyms_title.as_str());
                synonyms_title.append("synonyms");
                synonyms_title.append(format_conf.format_style.reset.as_str());
                let ghost title_line = decorate(
                    def_indent(conf),
                    conf.format_style.synonyms_title@,
                    "synonyms"@,
                    conf.format_style.reset@,
                );
                assert(synonyms_title@ =~= title_line);
                output.push(synonyms_title);
                proof {
                    assert(output@.map_values(|s: String| s@) =~= lines + seq![title_line]);
                    lines = lines + seq![title_line];
                }
                let ghost syn_base = lines;

                let take_n = if format_conf.synonym_limit < syns.len() {
                    format_conf.synonym_limit
                } else {
                    syns.len()
                };
                assert(take_n as int == syn_count(conf, syns@));
                let mut k: usize = 0;
                while k < take_n
                    invariant
                        k <= take_n,
                        take_n as int == syn_count(conf, syns@),
                        take_n <= syns@.len(),
                        conf == *format_conf,
                        exa_spaces@ == body_indent(conf),
                        conf.columns != 0 ==> 3 * (conf.indent_by as int) < (conf.columns as int),
                        output@.map_values(|s: String| s@) == lines,
                        lines == syn_base + syn_lines(conf, syns@, k as int),
                    decreases take_n - k,
                {
                    let syn: &String = &syns[k];
                    let mut syn_lines_v = format_line(
                        format_conf,
                        format_conf.format_style.synonyms.as_str(),
                        exa_spaces,
                        syn.as_str(),
                    );
                    let ghost syn_spec = format_line_spec(
                        conf,
                        conf.format_style.synonyms@,
                        body_indent(conf),
                        syns@[k as int]@,
                    );
                    output.append(&mut syn_lines_v);
                    proof {
                        assert(output@.map_values(|s: String| s@) =~= lines + syn_spec);
                        lines = lines + syn_spec;
                    }
                    k = k + 1;
                }
                proof {
                    assert(lines =~= base + synonyms_block(conf, *d));
                }
            },
            Option::None => {
                proof {
                    assert(output@.map_values(|s: String| s@) =~= base + synonyms_block(
                        conf,
                        *d,
                    ));
                }
            },
        }
    } else {
        proof {
            assert(output@.map_values(|s: String| s@) =~= base + synonyms_block(conf, *d));
        }
    }
}

/// Append every line of one definition: its wrapped text, then its
/// example section, then its synonyms section.
fn push_definition_block(
    output: &mut Vec<String>,
    format_conf: &FormatterConfig,
    d: &Definition,
    def_spaces: &str,
    exa_spaces: &str,
)
    requires
        format_conf.columns != 0 ==> 3 * (format_conf.indent_by as int) < (
        format_conf.columns as int),
        def_spaces@ == def_indent(*format_conf),
        exa_spaces@ == body_indent(*format_conf),
    ensures
        final(output)@.map_values(|s: String| s@) == old(output)@.map_values(|s: String| s@)
            + definition_block(*format_conf, *d),
{
    let ghost conf = *format_conf;
    let ghost base = output@.map_values(|s: String| s@);
    let mut def_lines = format_line(
        format_conf,
        format_conf.format_style.definition.as_str(),
        def_spaces,
        d.definition.as_str(),
    );
    let ghost def_spec = format_line_spec(
        conf,
        conf.format_style.definition@,
        def_indent(conf),
        d.definition@,
    );
    output.append(&mut def_lines);
    proof {
        assert(output@.map_values(|s: String| s@) =~= base + def_spec);
    }
    push_example_block(output, format_conf, d, def_spaces, exa_spaces);
    proof {
        assert(output@.map_values(|s: String| s@) =~= base + def_spec + example_block(conf, *d));
    }
    push_synonyms_block(output, format_conf, d, def_spaces, exa_spaces);
    proof {
        assert(output@.map_values(|s: String| s@) =~= base + def_spec + example_block(conf, *d)
            + synonyms_block(conf, *d));
        assert(output@.map_values(|s: String| s@) =~= base + definition_block(conf, *d));
    }
}

/// Render a whole entry: the word heading, then each meaning with its
/// part of speech, definitions, examples, and synonyms, each segment
/// indented, styled, and wrapped to the column limit; lines are joined
/// by newlines when formatting, and by single spaces otherwise.
pub fn format_word_data(format_conf: &FormatterConfig, word_data: &WordData) -> (r: String)
    requires
        format_conf.columns != 0 ==> 3 * (format_conf.indent_by as int) < (
        format_conf.columns as int),
    ensures
        r@ == rendered(*format_conf, *word_data),
{
    let ghost conf = *format_conf;
    let mut output: Vec<String> = Vec::new();

    let spaces = make_spaces(format_conf.indent_by);
    let mut def_spaces = String::new();
    def_spaces.append(spaces.as_str());
    def_spaces.append(spaces.as_str());
    let mut exa_spaces = String::new();
    exa_spaces.append(spaces.as_str());
    exa_spaces.append(spaces.as_str());
    exa_spaces.append(spaces.as_str());
    proof {
        assert(spaces@ =~= one_indent(conf));
        assert(def_spaces@ =~= def_indent(conf));
        assert(exa_spaces@ =~= body_indent(conf));
        reveal_strlit("");
        assert(""@ =~= Seq::<char>::empty());
    }

    let mut word_lines = format_line(
        format_conf,
        format_conf.format_style.word.as_str(),
        "",
        word_data.word.as_str(),
    );
    let ghost head = format_line_spec(
        conf,
        conf.format_style.word@,
        Seq::<char>::empty(),
        word_data.word@,
    );
    output.append(&mut word_lines);
    let ghost mut lines = head;
    proof {
        assert(output@.map_values(|s: String| s@) =~= lines);
    }

    let ghost ms = word_data.meanings@;
    let meanings_len = word_data.meanings.len();
    let mut i: usize = 0;
    while i < meanings_len
        invariant
            i <= meanings_len,
            meanings_len == ms.len(),
            ms == word_data.meanings@,
            conf == *format_conf,
            spaces@ == one_indent(conf),
            def_spaces@ == def_indent(conf),
            exa_spaces@ == body_indent(conf),
            conf.columns != 0 ==> 3 * (conf.indent_by as int) < (conf.columns as int),
            output@.map_values(|s: String| s@) == lines,
            lines == head + meanings_lines(conf, ms, i as int),
        decreases meanings_len - i,
    {
        let meaning: &Meaning = &word_data.meanings[i];
        let ghost base_i = lines;

        let mut pos_lines = format_line(
            format_conf,
            format_conf.format_style.part_of_speech.as_str(),
            spaces.as_str(),
            meaning.partOfSpeech.as_str(),
        );
        let ghost pos_spec = format_line_spec(
            conf,
            conf.format_style.part_of_speech@,
            one_indent(conf),
            meaning.partOfSpeech@,
        );
        output.append(&mut pos_lines);
        proof {
            assert(output@.map_values(|s: String| s@) =~= lines + pos_spec);
            lines = lines + pos_spec;
        }

        let ghost defs = meaning.definitions@;
        let definition_len = meaning.definitions.len();
        let mut j: usize = 0;
        while j < definition_len
            invariant
                j <= definition_len,
                definition_len == defs.len(),
                i < meanings_len,
                meanings_len == ms.len(),
                ms == word_data.meanings@,
                *meaning == ms[i as int],
                defs == meaning.definitions@,
                conf == *format_conf,
                def_spaces@ == def_indent(conf),
                exa_spaces@ == body_indent(conf),
                conf.columns != 0 ==> 3 * (conf.indent_by as int) < (conf.columns as int),
                output@.map_values(|s: String| s@) == lines,
                lines == base_i + pos_spec + defs_lines(conf, defs, j as int),
            decreases definition_len - j,
        {
            let d: &Definition = &meaning.definitions[j];
            let ghost base_j = lines;
            push_definition_block(&mut output, format_conf, d, def_spaces.as_str(), exa_spaces.as_str());
            proof {
                lines = lines + definition_block(conf, defs[j as int]);
                assert(output@.map_values(|s: String| s@) == lines);
            }
            if format_conf.formatting && definition_len > 1 && j + 1 != definition_len {
                output.push(String::new());
                proof {
                    assert(output@.map_values(|s: String| s@) =~= lines + seq![
                        Seq::<char>::empty(),
                    ]);
                    lines = lines + seq![Seq::<char>::empty()];
                }
            }
            proof {
                assert(lines =~= base_j + definition_block(conf, defs[j as int]) + sep_at(
                    conf,
                    defs.len() as int,
                    j as int,
                ));
                assert(lines =~= base_i + pos_spec + defs_lines(conf, defs, j + 1));
            }
            j = j + 1;
        }

        if format_conf.formatting && meanings_len > 1 && i + 1 != meanings_len {
            output.push(String::new());
            proof {
                assert(output@.map_values(|s: String| s@) =~= lines + seq![Seq::<char>::empty()]);
                lines = lines + seq![Seq::<char>::empty()];
            }
        }
        proof {
            assert(lines =~= base_i + meaning_block(conf, ms[i as int]) + sep_at(
                conf,
                ms.len() as int,
                i as int,
            ));
            assert(lines =~= head + meanings_lines(conf, ms, i + 1));
        }
        i = i + 1;
    }

    let sep: &str = if format_conf.formatting {
        "\n"
    } else {
        " "
    };
    assert(sep@ == line_sep(conf));
    let r = join_strings(&output, sep);
    proof {
        assert(lines =~= word_data_lines(conf, *word_data));
    }
    r
}

} // verus!
