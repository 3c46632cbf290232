//! The two calls that the library makes into the `url` crate.
//!
//! Nothing in this file is proved. Each wrapper holds one call, and its
//! contract says of that call what the crate's source shows; the rest of the
//! library is verified against these contracts.

use vstd::prelude::*;

verus! {

/// The error of `url::Url::parse`, carried through as it is.
#[verifier::external_type_specification]
#[verifier::external_body]
pub struct ExParseError(url::ParseError);

/// The longest text, in characters, that [`url_with_two_params`] takes for
/// each of its arguments. A URL is serialized with 32-bit offsets, and
/// parsing and encoding can make a text longer; with no argument above this
/// length the result stays far below the 4 GiB at which `url` gives up.
pub const MAX_TEXT_LEN: usize = 1_048_576;

/// What `url::Url::parse` makes of `input`: the serialization of the URL
/// that it parsed, or `None` where it rejects the text.
pub uninterp spec fn parsed_url(input: Seq<char>) -> Option<Seq<char>>;

/// What `url::Url::parse_with_params` makes of `input` and two pairs of a
/// key and a value: the serialization of the parsed URL with both pairs
/// added to its query, or `None` where it rejects the text.
pub uninterp spec fn url_with_params(
    input: Seq<char>,
    first_key: Seq<char>,
    first_value: Seq<char>,
    second_key: Seq<char>,
    second_value: Seq<char>,
) -> Option<Seq<char>>;

/// Calls `url::Url::parse`. The result depends on `input` alone, so it is
/// given by name: `Ok` holds the URL's serialization, and an error comes
/// exactly where the parser rejects the text.
#[verifier::external_body]
pub(crate) fn parse_url(input: &str) -> (parsed: Result<String, url::ParseError>)
    ensures
        match parsed {
            Ok(url) => parsed_url(input@) == Some(url@),
            Err(_) => parsed_url(input@) is None,
        },
{
    match url::Url::parse(input) {
        Ok(url) => Ok(String::from(url)),
        Err(error) => Err(error),
    }
}

/// Calls `url::Url::parse_with_params` with two pairs. The result depends
/// on the five texts alone, so it is given by name. The function parses
/// `input` as `url::Url::parse` does and then only adds to the query, so it
/// fails on the same texts. The lengths are bounded because it panics where
/// the serialization outgrows 32-bit offsets.
#[verifier::external_body]
pub(crate) fn url_with_two_params(
    input: &str,
    first_key: &str,
    first_value: &str,
    second_key: &str,
    second_value: &str,
) -> (built: Result<String, url::ParseError>)
    requires
        input@.len() <= MAX_TEXT_LEN,
        first_key@.len() <= MAX_TEXT_LEN,
        first_value@.len() <= MAX_TEXT_LEN,
        second_key@.len() <= MAX_TEXT_LEN,
        second_value@.len() <= MAX_TEXT_LEN,
    ensures
        match built {
            Ok(url) => url_with_params(
                input@,
                first_key@,
                first_value@,
                second_key@,
                second_value@,
            ) == Some(url@),
            Err(_) => url_with_params(
                input@,
                first_key@,
                first_value@,
                second_key@,
                second_value@,
            ) is None,
        },
        built is Ok <==> parsed_url(input@) is Some,
{
    let pairs = [(first_key, first_value), (second_key, second_value)];
    match url::Url::parse_with_params(input, &pairs) {
        Ok(url) => Ok(String::from(url)),
        Err(error) => Err(error),
    }
}

} // verus!
