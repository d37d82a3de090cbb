use vstd::prelude::*;
use vstd::string::*;

verus! {

/// The serialization of `s` as an absolute URL, or `None` where `s` is not one.
pub uninterp spec fn parsed_address(s: Seq<char>) -> Option<Seq<char>>;

/// Relies on `url::Url::parse` and `Url::as_str`: the text parses into an
/// absolute URL exactly when the result is `Ok`, whose text is the URL's
/// serialization; `Err` carries the parser's description of the fault.
#[verifier::external_body]
fn parse_url(s: &str) -> (r: Result<String, String>)
    ensures
        r is Ok <==> parsed_address(s@) is Some,
        r is Ok ==> parsed_address(s@) == Some(r->Ok_0@),
{
    match url::Url::parse(s) {
        Ok(u) => Ok(u.as_str().to_string()),
        Err(e) => Err(e.to_string()),
    }
}

/// Why a candidate server address was refused.
#[derive(Clone, Debug, PartialEq, Eq)]
pub enum ConfigError {
    /// The text is not an absolute URL; the parser's description is kept.
    InvalidUrl(String),
    /// The probe failed at the transport layer.
    Unreachable(crate::probe::TransportKind, String),
}

/// The text reported for an error.
pub open spec fn error_text(e: ConfigError) -> Seq<char> {
    match e {
        ConfigError::InvalidUrl(d) => "Invalid URL: "@ + d@,
        ConfigError::Unreachable(_, m) => m@,
    }
}

impl ConfigError {
    /// The text reported to the page for this error.
    pub fn message(&self) -> (r: String)
        ensures
            r@ == error_text(*self),
    {
        match self {
            ConfigError::InvalidUrl(d) => String::from_str("Invalid URL: ").concat(d.as_str()),
            ConfigError::Unreachable(_, m) => m.clone(),
        }
    }
}

/// Checks that `candidate` is an absolute URL and gives its serialization.
pub fn validate_address(candidate: &str) -> (r: Result<String, ConfigError>)
    ensures
        r is Ok <==> parsed_address(candidate@) is Some,
        r is Ok ==> parsed_address(candidate@) == Some(r->Ok_0@),
        r is Err ==> r->Err_0 is InvalidUrl,
{
    match parse_url(candidate) {
        Ok(u) => Ok(u),
        Err(e) => Err(ConfigError::InvalidUrl(e)),
    }
}

} // verus!
