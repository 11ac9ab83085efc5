//! The dictionary entry data model, and the pure part of talking to
//! the dictionary service: building the request URL and classifying
//! the response status. The HTTP request itself is the shell's job.

use vstd::prelude::*;
use vstd::string::*;

use crate::WordsError;

verus! {

/// How to reach the dictionary service.
pub struct RequestOptions {
    pub url: String,
    pub lang: String,
}

impl Default for RequestOptions {
    /// The conventional public dictionary endpoint, for English.
    fn default() -> (r: Self)
        ensures
            r.url@ == "https://api.dictionaryapi.dev/api/v2/entries"@,
            r.lang@ == "en"@,
    {
        RequestOptions {
            url: String::from_str("https://api.dictionaryapi.dev/api/v2/entries"),
            lang: String::from_str("en"),
        }
    }
}

impl RequestOptions {
    /// The URL that asks this service for one word's entry.
    pub fn request_url(&self, query: &str) -> (r: String)
        ensures
            r@ == self.url@ + "/"@ + self.lang@ + "/"@ + query@,
    {
        self.url.clone().concat("/").concat(self.lang.as_str()).concat("/").concat(query)
    }
}

/// Classify the status of a dictionary response: the service answers
/// 404 exactly when it has no entry for the query; any other status
/// leaves the body to be decoded.
pub fn check_status(status: u16) -> (r: Result<(), WordsError>)
    ensures
        if status == 404 {
            r matches Err(WordsError::NotFound(m)) && m@ == "No Definitions Found"@
        } else {
            r is Ok
        },
{
    if status == 404 {
        Err(WordsError::NotFound(String::from_str("No Definitions Found")))
    } else {
        Ok(())
    }
}

/// One pronunciation of a word, with a link to its audio.
pub struct Phonetic {
    pub text: String,
    pub audio: String,
}

/// One sense of a word: its text, an optional usage example, and an
/// optional ordered list of synonyms.
pub struct Definition {
    pub definition: String,
    pub example: Option<String>,
    pub synonyms: Option<Vec<String>>,
}

/// One part-of-speech grouping of a word's senses, in source order.
#[allow(non_snake_case)]
pub struct Meaning {
    pub partOfSpeech: String,
    pub definitions: Vec<Definition>,
}

/// The decoded dictionary entry for one query term.
pub struct WordData {
    pub word: String,
    pub phonetics: Vec<Phonetic>,
    pub meanings: Vec<Meaning>,
}

} // verus!
