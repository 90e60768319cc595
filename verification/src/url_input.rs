//! Turning what a user typed into the URL the web view loads.
use vstd::prelude::*;

use url::{ParseError, Url};

use crate::text::{occurs_at, seq_contains, str_contains};

verus! {

#[verifier::external_type_specification]
#[verifier::external_body]
pub struct ExUrl(url::Url);

#[verifier::external_type_specification]
#[verifier::external_body]
pub struct ExParseError(url::ParseError);

/// What `Url::parse` gives for a string: the absolute URL it denotes, or the
/// reason it denotes none. It depends on the string alone.
pub uninterp spec fn parsed_url(input: Seq<char>) -> Result<Url, ParseError>;

/// Calls `Url::parse`, which parses an absolute URL; its result is named by
/// [`parsed_url`]. Which strings parse, and to what, is left unstated.
#[verifier::external_body]
fn parse_url(input: &str) -> (parsed: Result<Url, ParseError>)
    ensures
        parsed == parsed_url(input@),
{
    Url::parse(input)
}

/// The separator between a URL's scheme and the rest: `://`.
pub open spec fn scheme_separator() -> Seq<char> {
    seq![':', '/', '/']
}

/// The scheme put in front of input that names none: `https://`.
pub open spec fn default_scheme() -> Seq<char> {
    seq!['h', 't', 't', 'p', 's', ':', '/', '/']
}

/// The URL text for a user's input: unchanged where it contains `://`, else
/// prefixed with `https://`.
pub open spec fn url_text_for(input: Seq<char>) -> Seq<char> {
    if seq_contains(input, scheme_separator()) {
        input
    } else {
        default_scheme() + input
    }
}

/// Why a URL could not be loaded.
#[derive(Debug)]
pub enum LoadUrlError {
    /// The text is no valid URL; the parser's error says why.
    Invalid(ParseError),
}

/// Prefixes input that names no scheme with `https://`.
pub fn add_default_scheme(input: String) -> (text: String)
    ensures
        text@ == url_text_for(input@),
{
    proof {
        reveal_strlit("://");
        reveal_strlit("https://");
        assert("://"@ =~= scheme_separator());
        assert("https://"@ =~= default_scheme());
    }
    if str_contains(input.as_str(), "://") {
        input
    } else {
        String::from_str("https://").concat(input.as_str())
    }
}

/// The outcome of loading a parsed URL: the URL itself, or the parser's error.
pub fn load_outcome(parsed: Result<Url, ParseError>) -> (outcome: Result<Url, LoadUrlError>)
    ensures
        match parsed {
            Ok(url) => outcome == Ok::<Url, LoadUrlError>(url),
            Err(e) => outcome == Err::<Url, LoadUrlError>(LoadUrlError::Invalid(e)),
        },
{
    match parsed {
        Ok(url) => Ok(url),
        Err(e) => Err(LoadUrlError::Invalid(e)),
    }
}

/// The URL that a user's input asks to load: the input, prefixed with
/// `https://` where it names no scheme, parsed as an absolute URL; where that
/// text does not parse, the parser's error.
pub fn url_to_load(input: String) -> (outcome: Result<Url, LoadUrlError>)
    ensures
        match parsed_url(url_text_for(input@)) {
            Ok(url) => outcome == Ok::<Url, LoadUrlError>(url),
            Err(e) => outcome == Err::<Url, LoadUrlError>(LoadUrlError::Invalid(e)),
        },
{
    let text = add_default_scheme(input);
    load_outcome(parse_url(text.as_str()))
}

/// The text that is parsed always names a scheme.
pub proof fn lemma_url_text_names_scheme(input: Seq<char>)
    ensures
        seq_contains(url_text_for(input), scheme_separator()),
{
    if !seq_contains(input, scheme_separator()) {
        let text = default_scheme() + input;
        assert(text.subrange(5, 8) =~= scheme_separator());
        assert(occurs_at(text, scheme_separator(), 5));
    }
}

/// Adding the default scheme a second time changes nothing.
pub proof fn lemma_url_text_idempotent(input: Seq<char>)
    ensures
        url_text_for(url_text_for(input)) == url_text_for(input),
{
    lemma_url_text_names_scheme(input);
}

/// Input holding `:`, `/`, `/` in a row is parsed as typed; any other input is
/// parsed with the eight characters `https://` in front of it.
pub proof fn lemma_url_text_prefix(input: Seq<char>)
    ensures
        (exists|i: int|
            0 <= i && i + 3 <= input.len() && #[trigger] input[i] == ':' && input[i + 1] == '/'
                && input[i + 2] == '/') ==> url_text_for(input) == input,
        !(exists|i: int|
            0 <= i && i + 3 <= input.len() && #[trigger] input[i] == ':' && input[i + 1] == '/'
                && input[i + 2] == '/') ==> url_text_for(input) == seq![
            'h',
            't',
            't',
            'p',
            's',
            ':',
            '/',
            '/',
        ] + input,
{
    if exists|i: int|
        0 <= i && i + 3 <= input.len() && #[trigger] input[i] == ':' && input[i + 1] == '/'
            && input[i + 2] == '/' {
        let i = choose|i: int|
            0 <= i && i + 3 <= input.len() && #[trigger] input[i] == ':' && input[i + 1] == '/'
                && input[i + 2] == '/';
        assert(input.subrange(i, i + 3) =~= scheme_separator());
        assert(occurs_at(input, scheme_separator(), i));
    } else {
        assert forall|i: int| !occurs_at(input, scheme_separator(), i) by {
            if occurs_at(input, scheme_separator(), i) {
                assert(input.subrange(i, i + 3)[0] == input[i]);
                assert(input.subrange(i, i + 3)[1] == input[i + 1]);
                assert(input.subrange(i, i + 3)[2] == input[i + 2]);
            }
        }
    }
}

} // verus!
