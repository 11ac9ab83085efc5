//! Small string helpers: trimming and the pure part of path resolution.
//!
//! The shell reads environment variables and touches the file system;
//! the functions here only decide, from the values it found, which
//! paths the tool uses.

use vstd::prelude::*;
use vstd::string::*;

use crate::WordsError;

verus! {

/// The characters that trimming removes: the Unicode `White_Space` set.
pub open spec fn is_space_char(c: char) -> bool {
    c == ' ' || c == '\t' || c == '\n' || c == '\r' || c == '\u{0b}' || c == '\u{0c}'
        || c == '\u{85}' || c == '\u{a0}' || c == '\u{1680}' || c == '\u{2000}'
        || c == '\u{2001}' || c == '\u{2002}' || c == '\u{2003}' || c == '\u{2004}'
        || c == '\u{2005}' || c == '\u{2006}' || c == '\u{2007}' || c == '\u{2008}'
        || c == '\u{2009}' || c == '\u{200a}' || c == '\u{2028}' || c == '\u{2029}'
        || c == '\u{202f}' || c == '\u{205f}' || c == '\u{3000}'
}

/// Executable twin of [`is_space_char`].
pub fn char_is_space(c: char) -> (b: bool)
    ensures
        b == is_space_char(c),
{
    c == ' ' || c == '\t' || c == '\n' || c == '\r' || c == '\u{0b}' || c == '\u{0c}'
        || c == '\u{85}' || c == '\u{a0}' || c == '\u{1680}' || c == '\u{2000}'
        || c == '\u{2001}' || c == '\u{2002}' || c == '\u{2003}' || c == '\u{2004}'
        || c == '\u{2005}' || c == '\u{2006}' || c == '\u{2007}' || c == '\u{2008}'
        || c == '\u{2009}' || c == '\u{200a}' || c == '\u{2028}' || c == '\u{2029}'
        || c == '\u{202f}' || c == '\u{205f}' || c == '\u{3000}'
}

/// A sequence with its leading whitespace removed.
pub open spec fn trim_front(s: Seq<char>) -> Seq<char>
    decreases s.len(),
{
    if s.len() > 0 && is_space_char(s[0]) {
        trim_front(s.drop_first())
    } else {
        s
    }
}

/// A sequence with its trailing whitespace removed.
pub open spec fn trim_back(s: Seq<char>) -> Seq<char>
    decreases s.len(),
{
    if s.len() > 0 && is_space_char(s.last()) {
        trim_back(s.drop_last())
    } else {
        s
    }
}

/// A sequence with whitespace removed from both ends.
pub open spec fn trimmed(s: Seq<char>) -> Seq<char> {
    trim_back(trim_front(s))
}

/// Remove leading and trailing whitespace from a string slice.
pub fn trim_str<'a>(s: &'a str) -> (r: &'a str)
    ensures
        r@ == trimmed(s@),
{
    let len: usize = s.unicode_len();
    let mut a: usize = 0;
    assert(s@.subrange(0, len as int) =~= s@);
    while a < len && char_is_space(s.get_char(a))
        invariant
            a <= len,
            len == s@.len(),
            trim_front(s@) == trim_front(s@.subrange(a as int, len as int)),
        decreases len - a,
    {
        assert(s@.subrange(a as int, len as int).drop_first() =~= s@.subrange(
            a + 1,
            len as int,
        ));
        a = a + 1;
    }
    assert(trim_front(s@) == s@.subrange(a as int, len as int));
    let mut b: usize = len;
    while b > a && char_is_space(s.get_char(b - 1))
        invariant
            a <= b <= len,
            len == s@.len(),
            trim_back(s@.subrange(a as int, len as int)) == trim_back(
                s@.subrange(a as int, b as int),
            ),
        decreases b,
    {
        assert(s@.subrange(a as int, b as int).drop_last() =~= s@.subrange(a as int, b - 1));
        b = b - 1;
    }
    assert(trim_back(s@.subrange(a as int, len as int)) == s@.subrange(a as int, b as int));
    s.substring_char(a, b)
}

/// The directory that holds this tool's data, from the environment
/// values the shell found: `XDG_DATA_HOME` wins over `HOME`, and an
/// empty value is an error rather than a path.
pub fn resolve_data_dir(xdg_data_home: Option<String>, home: Option<String>) -> (r: Result<
    String,
    WordsError,
>)
    ensures
        match xdg_data_home {
            Some(d) => if d@.len() == 0 {
                r matches Err(WordsError::Environment(m))
                    && m@ == "XDG_DATA_HOME not set correctly and is empty"@
            } else {
                r matches Ok(p) && p@ == d@ + "/words_cli"@
            },
            None => match home {
                Some(h) => if h@.len() == 0 {
                    r matches Err(WordsError::Environment(m))
                        && m@ == "HOME not set correctly and is empty"@
                } else {
                    r matches Ok(p) && p@ == h@ + "/.local/share/words_cli"@
                },
                None => r matches Err(WordsError::Environment(m))
                    && m@ == "environment variables HOME and XDG_DATA_HOME are not set"@,
            },
        },
{
    match xdg_data_home {
        Some(d) => {
            if d.as_str().is_empty() {
                Err(
                    WordsError::Environment(
                        String::from_str("XDG_DATA_HOME not set correctly and is empty"),
                    ),
                )
            } else {
                Ok(d.concat("/words_cli"))
            }
        },
        None => match home {
            Some(h) => {
                if h.as_str().is_empty() {
                    Err(
                        WordsError::Environment(
                            String::from_str("HOME not set correctly and is empty"),
                        ),
                    )
                } else {
                    Ok(h.concat("/.local/share/words_cli"))
                }
            },
            None => Err(
                WordsError::Environment(
                    String::from_str("environment variables HOME and XDG_DATA_HOME are not set"),
                ),
            ),
        },
    }
}

/// The directory that holds this tool's configuration, from the
/// environment values the shell found: `XDG_CONFIG_HOME` wins over
/// `HOME`, and an empty value is an error rather than a path.
pub fn resolve_config_dir(xdg_config_home: Option<String>, home: Option<String>) -> (r: Result<
    String,
    WordsError,
>)
    ensures
        match xdg_config_home {
            Some(d) => if d@.len() == 0 {
                r matches Err(WordsError::Environment(m))
                    && m@ == "XDG_CONFIG_HOME not set correctly and is empty"@
            } else {
                r matches Ok(p) && p@ == d@ + "/words_cli"@
            },
            None => match home {
                Some(h) => if h@.len() == 0 {
                    r matches Err(WordsError::Environment(m))
                        && m@ == "HOME not set correctly and is empty"@
                } else {
                    r matches Ok(p) && p@ == h@ + "/.config/words_cli"@
                },
                None => r matches Err(WordsError::Environment(m))
                    && m@ == "environment variables HOME and XDG_CONFIG_HOME are not set"@,
            },
        },
{
    match xdg_config_home {
        Some(d) => {
            if d.as_str().is_empty() {
                Err(
                    WordsError::Environment(
                        String::from_str("XDG_CONFIG_HOME not set correctly and is empty"),
                    ),
                )
            } else {
                Ok(d.concat("/words_cli"))
            }
        },
        None => match home {
            Some(h) => {
                if h.as_str().is_empty() {
                    Err(
                        WordsError::Environment(
                            String::from_str("HOME not set correctly and is empty"),
                        ),
                    )
                } else {
                    Ok(h.concat("/.config/words_cli"))
                }
            },
            None => Err(
                WordsError::Environment(
                    String::from_str("environment variables HOME and XDG_CONFIG_HOME are not set"),
                ),
            ),
        },
    }
}

/// The cache directory under the tool's data directory.
pub fn cache_dir_path(data_dir: &str) -> (r: String)
    ensures
        r@ == data_dir@ + "/cache"@,
{
    data_dir.to_owned().concat("/cache")
}

/// The cache file that stores one word's definition.
pub fn cache_file_path(data_dir: &str, word: &str) -> (r: String)
    ensures
        r@ == data_dir@ + "/cache/"@ + word@,
{
    data_dir.to_owned().concat("/cache/").concat(word)
}

/// The configuration file to read: an explicit path wins; otherwise
/// the conventional file under the resolved configuration directory.
pub fn resolve_config_file_path(
    override_path: Option<String>,
    xdg_config_home: Option<String>,
    home: Option<String>,
) -> (r: Result<String, WordsError>)
    ensures
        match override_path {
            Some(p) => r matches Ok(q) && q@ == p@,
            None => match xdg_config_home {
                Some(d) => if d@.len() == 0 {
                    r matches Err(WordsError::Environment(m))
                        && m@ == "XDG_CONFIG_HOME not set correctly and is empty"@
                } else {
                    r matches Ok(p) && p@ == d@ + "/words_cli"@ + "/words_cli.toml"@
                },
                None => match home {
                    Some(h) => if h@.len() == 0 {
                        r matches Err(WordsError::Environment(m))
                            && m@ == "HOME not set correctly and is empty"@
                    } else {
                        r matches Ok(p) && p@ == h@ + "/.config/words_cli"@ + "/words_cli.toml"@
                    },
                    None => r matches Err(WordsError::Environment(m))
                        && m@ == "environment variables HOME and XDG_CONFIG_HOME are not set"@,
                },
            },
        },
{
    match override_path {
        Some(p) => Ok(p),
        None => match resolve_config_dir(xdg_config_home, home) {
            Ok(dir) => Ok(dir.concat("/words_cli.toml")),
            Err(e) => Err(e),
        },
    }
}

} // verus!
