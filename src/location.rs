use vstd::prelude::*;

verus! {

/// What parsing a text as an absolute URL gives: the URL's serialization,
/// or the parser's description of the failure.
pub uninterp spec fn url_parse_outcome(input: Seq<char>) -> Result<Seq<char>, Seq<char>>;

/// Relies on `url::Url::parse` (with `From<Url> for String` and the error's
/// `Display`): the outcome depends on the input text alone.
#[verifier::external_body]
fn parse_absolute_url(input: &str) -> (r: Result<String, String>)
    ensures
        match r {
            Ok(u) => url_parse_outcome(input@) == Ok::<Seq<char>, Seq<char>>(u@),
            Err(e) => url_parse_outcome(input@) == Err::<Seq<char>, Seq<char>>(e@),
        },
{
    match url::Url::parse(input) {
        Ok(u) => Ok(String::from(u)),
        Err(e) => Err(e.to_string()),
    }
}

/// An absolute URL, held as its serialization.
pub struct Url {
    serialization: String,
}

/// A text that does not parse as an absolute URL.
pub struct UrlError {
    pub input: String,
    pub reason: String,
}

impl View for Url {
    type V = Seq<char>;

    closed spec fn view(&self) -> Seq<char> {
        self.serialization@
    }
}

impl Url {
    /// Parses `input` as an absolute URL.
    pub fn parse(input: &str) -> (r: Result<Url, UrlError>)
        ensures
            match r {
                Ok(u) => url_parse_outcome(input@) == Ok::<Seq<char>, Seq<char>>(u@),
                Err(e) => url_parse_outcome(input@) == Err::<Seq<char>, Seq<char>>(e.reason@)
                    && e.input@ == input@,
            },
    {
        match parse_absolute_url(input) {
            Ok(u) => Ok(Url { serialization: u }),
            Err(e) => Err(UrlError { input: String::from_str(input), reason: e }),
        }
    }

    pub fn as_str(&self) -> (r: &str)
        ensures
            r@ == self@,
    {
        self.serialization.as_str()
    }

    pub fn into_string(self) -> (r: String)
        ensures
            r@ == self@,
    {
        self.serialization
    }
}

} // verus!
