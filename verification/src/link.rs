//! Targets of links.

use vstd::prelude::*;

verus! {

/// What `reqwest::Url::parse` reads `input` as, written out again as a URL:
/// `None` where `input` is no absolute URL.
pub uninterp spec fn url_written(input: Seq<char>) -> Option<Seq<char>>;

/// Parses `input` with `reqwest::Url::parse` and writes the URL out again
/// with `String::from`, which gives the URL's serialization. The result is a
/// function of `input` alone; a text that is no absolute URL gives `None`.
#[verifier::external_body]
fn parse_url(input: &str) -> (r: Option<String>)
    ensures
        match r {
            Some(url) => url_written(input@) == Some(url@),
            None => url_written(input@).is_none(),
        },
{
    reqwest::Url::parse(input).ok().map(String::from)
}

/// Reads the target of a link: the URL in the form in which it is written
/// into a message, or `None` where `input` is no absolute URL.
pub fn link_target(input: &str) -> (r: Option<String>)
    ensures
        match r {
            Some(url) => url_written(input@) == Some(url@),
            None => url_written(input@).is_none(),
        },
{
    parse_url(input)
}

} // verus!
