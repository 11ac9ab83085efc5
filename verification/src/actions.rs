//! What one invocation does: the chosen action with its query, and
//! the decisions that drive a lookup. The shell performs the outside
//! steps — reading standard input, consulting the cache, fetching,
//! spell-checking — and hands each result back to the functions here,
//! which decide what happens next.

use vstd::prelude::*;
use vstd::string::*;

use crate::dict_api::WordData;
use crate::formatter::{join_lines, join_strings};
use crate::utils::{trim_str, trimmed};
use crate::WordArgs;
use crate::WordsError;

verus! {

/// What the tool has been asked to do.
pub enum WordActions {
    Definition,
    Suggest,
    Nothing,
}

/// One resolved invocation: the action and its query.
pub struct WordAction {
    pub action: WordActions,
    pub query: String,
}

impl Default for WordAction {
    /// An empty invocation: nothing to do, no query.
    fn default() -> (r: Self)
        ensures
            r.action is Nothing,
            r.query@ == Seq::<char>::empty(),
    {
        WordAction { action: WordActions::Nothing, query: String::new() }
    }
}

/// The outside work one run performs.
pub enum WordTask {
    /// Look up this query's definition.
    Define(String),
    /// Ask the spell engine about this query.
    Suggest(String),
}

/// How a definition lookup proceeds once the cache has answered.
pub enum DefinePlan {
    /// The cache held the entry: render it as it is; the dictionary
    /// service is not contacted at all.
    UseCache(WordData),
    /// The cache held nothing: fetch the entry from the dictionary
    /// service, and store what arrives in the cache before the run
    /// ends.
    FetchAndStore,
}

impl WordAction {
    /// Build the invocation from the parsed arguments: `suggest` wins
    /// over `define`, and the query is trimmed. One of the two must be
    /// present.
    pub fn new(word_args: &WordArgs) -> (r: Self)
        requires
            word_args.suggest is Some || word_args.define is Some,
        ensures
            match word_args.suggest {
                Option::Some(q) => r.action is Suggest && r.query@ == trimmed(q@),
                Option::None => match word_args.define {
                    Option::Some(q) => r.action is Definition && r.query@ == trimmed(q@),
                    Option::None => false,
                },
            },
    {
        let mut word_action = WordAction::default();
        match &word_args.suggest {
            Option::Some(query) => {
                word_action.query.append(trim_str(query.as_str()));
                word_action.action = WordActions::Suggest;
                proof {
                    assert(word_action.query@ =~= trimmed(query@));
                }
            },
            Option::None => {
                match &word_args.define {
                    Option::Some(query) => {
                        word_action.query.append(trim_str(query.as_str()));
                        word_action.action = WordActions::Definition;
                        proof {
                            assert(word_action.query@ =~= trimmed(query@));
                        }
                    },
                    Option::None => {},
                }
            },
        }
        word_action
    }

    /// Decide what this invocation does: a definition lookup or a
    /// spelling suggestion, carrying the query; an empty invocation is
    /// an input error.
    pub fn run(&self) -> (r: Result<WordTask, WordsError>)
        ensures
            match self.action {
                WordActions::Definition => r matches Ok(WordTask::Define(q)) && q@ == self.query@,
                WordActions::Suggest => r matches Ok(WordTask::Suggest(q)) && q@ == self.query@,
                WordActions::Nothing => r matches Err(WordsError::Input(m)) && m@
                    == "nothing to do, this should not happen"@,
            },
    {
        match self.action {
            WordActions::Definition => Ok(WordTask::Define(self.query.clone())),
            WordActions::Suggest => Ok(WordTask::Suggest(self.query.clone())),
            WordActions::Nothing => Err(
                WordsError::Input(String::from_str("nothing to do, this should not happen")),
            ),
        }
    }

    /// Whether the query is the token that asks for the real query to
    /// be read from standard input.
    pub fn needs_stdin(&self) -> (b: bool)
        ensures
            b == (self.query@ == "-"@),
    {
        let dash = String::from_str("-");
        self.query.eq(&dash)
    }

    /// The query a lookup actually uses: the invocation's own query,
    /// or — when that is the standard-input token — what the shell
    /// read, trimmed; input that was empty as read is an input error.
    pub fn resolve_query(&self, stdin_text: Option<&str>) -> (r: Result<String, WordsError>)
        ensures
            if self.query@ == "-"@ {
                match stdin_text {
                    Option::Some(s) => if s@.len() == 0 {
                        r matches Err(WordsError::Input(m)) && m@ == "nothing in stdin"@
                    } else {
                        r matches Ok(q) && q@ == trimmed(s@)
                    },
                    Option::None => r matches Err(WordsError::Input(m)) && m@
                        == "nothing in stdin"@,
                }
            } else {
                r matches Ok(q) && q@ == self.query@
            },
    {
        if self.needs_stdin() {
            match stdin_text {
                Option::Some(s) => {
                    if s.is_empty() {
                        Err(WordsError::Input(String::from_str("nothing in stdin")))
                    } else {
                        Ok(trim_str(s).to_owned())
                    }
                },
                Option::None => Err(WordsError::Input(String::from_str("nothing in stdin"))),
            }
        } else {
            Ok(self.query.clone())
        }
    }
}

/// Decide a definition lookup from the cache's answer: a hit is
/// rendered as it is and the dictionary service is never contacted;
/// only a miss reaches for the network, and what arrives is stored in
/// the cache before the run ends.
pub fn definition_plan(cached: Option<WordData>) -> (r: DefinePlan)
    ensures
        match cached {
            Option::Some(data) => r matches DefinePlan::UseCache(d) && d == data,
            Option::None => r is FetchAndStore,
        },
{
    match cached {
        Option::Some(data) => DefinePlan::UseCache(data),
        Option::None => DefinePlan::FetchAndStore,
    }
}

/// What a suggestion run prints: the suggestions one per line, or the
/// query itself when the spell engine had nothing to say.
pub fn suggest_output(query: &str, suggestions: &Option<Vec<String>>) -> (r: String)
    ensures
        match suggestions {
            Option::Some(list) => r@ == join_lines(list@.map_values(|s: String| s@), "\n"@),
            Option::None => r@ == query@,
        },
{
    match suggestions {
        Option::Some(list) => join_strings(list, "\n"),
        Option::None => query.to_owned(),
    }
}

} // verus!
