//! The language of a message.

use vstd::prelude::*;
use crate::chars::{chars_of, is_space_char};
use crate::mastodon::Language;
use crate::text::MessageText;

verus! {

/// Asks lingua for the language of `text`: a detector for all the languages
/// that lingua is built with, made by `LanguageDetectorBuilder`, and its
/// `detect_language_of`. The result is the language's ISO 639-3 code, or
/// `None` where lingua finds none reliably. Nothing is promised of it: lingua
/// sums over hash sets, whose order differs from run to run.
#[verifier::external_body]
fn lingua_detect(text: &str) -> (r: Option<String>) {
    lingua::LanguageDetectorBuilder::from_all_languages().build().detect_language_of(text).map(
        |l| l.iso_code_639_3().to_string(),
    )
}

/// Whether a text holds nothing but white space.
pub open spec fn is_blank(s: Seq<char>) -> bool {
    forall|i: int| 0 <= i < s.len() ==> crate::chars::is_space(#[trigger] s[i])
}

/// Tests a text for holding nothing but white space.
pub fn blank(s: &str) -> (r: bool)
    ensures
        r == is_blank(s@),
{
    let v = chars_of(s);
    let mut i: usize = 0;
    while i < v.len()
        invariant
            i <= v.len(),
            v@ == s@,
            forall|j: int| 0 <= j < i ==> crate::chars::is_space(#[trigger] v@[j]),
        decreases v.len() - i,
    {
        if !is_space_char(v[i]) {
            return false;
        }
        i += 1;
    }
    true
}

/// The language that a post is tagged with, given the ISO 639-3 code of the
/// language that was detected: English where none was detected, and where
/// the code names no language.
pub open spec fn language_for(detected: Option<Seq<char>>) -> crate::mastodon::LanguageView {
    let code = match detected {
        Some(code) => code,
        None => "eng"@,
    };
    match crate::mastodon::language_of(code) {
        Some(language) => language,
        None => crate::mastodon::english(),
    }
}

/// The language of a text by its code, as far as it can be told reliably.
pub fn detect_lang_inner(text: &str) -> (r: Option<String>) {
    lingua_detect(text)
}

/// The language that a post is tagged with, given what was detected.
pub fn choose_language(detected: Option<String>) -> (r: Language)
    ensures
        r@ == language_for(crate::util::chat::text_of(detected)),
{
    let found = match &detected {
        Some(code) => Language::from_639_3(code.as_str()),
        None => Language::from_639_3("eng"),
    };
    match found {
        Some(language) => language,
        None => Language::eng(),
    }
}

/// The language of a message, told from the text that its non-semantic
/// entities leave. A message of which nothing or only white space is left
/// has no language.
pub fn detect_lang(msg_text: &MessageText) -> (r: Option<Language>)
    requires
        msg_text@.aligned(),
    ensures
        r is None <==> is_blank(msg_text@.semantics()),
        r matches Some(language) ==> exists|detected: Option<Seq<char>>|
            language@ == #[trigger] language_for(detected),
{
    let content = msg_text.extract_semantics();
    if blank(content.as_str()) {
        return None;
    }
    let detected = detect_lang_inner(content.as_str());
    let language = choose_language(detected);
    assert(language@ == language_for(crate::util::chat::text_of(detected)));
    Some(language)
}

} // verus!
