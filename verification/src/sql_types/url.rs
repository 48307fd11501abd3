//! Web addresses.

use vstd::prelude::*;

verus! {

/// What `url::Url::parse` makes of a text: `Some` of the serialization of the
/// URL it parsed, which is the text in normal form, or `None` where it
/// reports that the text is no absolute URL.
pub uninterp spec fn url_serialization(input: Seq<char>) -> Option<Seq<char>>;

/// The error type of `url::Url::parse`.
#[verifier::external_type_specification]
#[verifier::external_body]
pub struct ExUrlParseError(url::ParseError);

/// Calls `url::Url::parse` and, where it succeeds, takes the serialization
/// out of the URL with `String::from`. The answer depends on the text alone
/// and is the one that `url_serialization` names.
#[verifier::external_body]
fn parse_and_serialize(input: &str) -> (r: Result<String, url::ParseError>)
    ensures
        r is Ok <==> url_serialization(input@) is Some,
        r matches Ok(text) ==> url_serialization(input@) == Some(text@),
{
    match url::Url::parse(input) {
        Ok(parsed) => Ok(String::from(parsed)),
        Err(e) => Err(e),
    }
}

/// The text handed in is no absolute URL.
#[derive(Clone, Copy, Debug, PartialEq, Eq, Structural)]
pub struct UrlParseError;

impl UrlParseError {
    /// What to tell a reader about this error.
    pub fn message(&self) -> (text: &'static str)
        ensures
            text@ == "Failed to parse Url"@,
    {
        "Failed to parse Url"
    }
}

/// A web address, kept as its text.
pub struct Url(String);

impl View for Url {
    type V = Seq<char>;

    closed spec fn view(&self) -> Seq<char> {
        self.0@
    }
}

impl Url {
    /// The address that a record holds as this text. The text is taken as
    /// it is.
    pub fn from_stored(text: String) -> (url: Url)
        ensures
            url@ == text@,
    {
        Url(text)
    }

    /// The address for what parsing gave: the serialization where there is
    /// one, an error where there is none.
    pub fn from_parsed(parsed: Option<String>) -> (r: Result<Url, UrlParseError>)
        ensures
            match parsed {
                Some(text) => r matches Ok(url) && url@ == text@,
                None => r is Err,
            },
    {
        match parsed {
            Some(text) => Ok(Url(text)),
            None => Err(UrlParseError),
        }
    }

    /// Parses an absolute URL. The address holds the URL in normal form,
    /// which need not be the text that was handed in.
    pub fn parse(input: &str) -> (r: Result<Url, UrlParseError>)
        ensures
            match url_serialization(input@) {
                Some(text) => r matches Ok(url) && url@ == text,
                None => r is Err,
            },
    {
        let parsed = match parse_and_serialize(input) {
            Ok(text) => Some(text),
            Err(_) => None,
        };
        Url::from_parsed(parsed)
    }

    /// The text of the address.
    pub fn as_str(&self) -> (text: &str)
        ensures
            text@ == self@,
    {
        self.0.as_str()
    }

    /// The text of the address, taken out of it.
    pub fn into_string(self) -> (text: String)
        ensures
            text@ == self@,
    {
        self.0
    }

    /// A second address with the same text.
    pub fn duplicate(&self) -> (copy: Url)
        ensures
            copy@ == self@,
    {
        Url(self.0.clone())
    }
}

} // verus!
