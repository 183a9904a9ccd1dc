use vstd::prelude::*;
use vstd::string::*;
use crate::error::Error;

verus! {

/// What resolving `path` against `base` yields, as the URL library
/// computes it: a function of the two strings alone, absent when either
/// the base fails to parse or the resolution fails.
pub uninterp spec fn resolved_url(base: Seq<char>, path: Seq<char>) -> Option<Seq<char>>;

/// Relies on `url::Url::parse` and `url::Url::join`: parse the base
/// endpoint, resolve `path` against it, and render the absolute result.
/// Failure of either step yields nothing.
#[verifier::external_body]
fn join_url(base: &str, path: &str) -> (r: Option<String>)
    ensures
        match r {
            Some(s) => resolved_url(base@, path@) == Some(s@),
            None => resolved_url(base@, path@) is None,
        },
{
    match url::Url::parse(base).and_then(|u| u.join(path)) {
        Ok(u) => Some(u.as_str().to_owned()),
        Err(_) => None,
    }
}

/// Authenticated-transport configuration: the base endpoint and the
/// bearer credential, both immutable after construction. The network call
/// itself is issued by the embedding program, which resolves each path
/// and attaches the authorization header through the functions below.
pub struct Client {
    pub base_url: String,
    pub access_token: String,
}

impl Client {
    /// The default public endpoint of the service.
    pub fn default_base_url() -> (r: String)
        ensures
            r@ == "https://openspeech.bytedance.com"@,
    {
        String::from_str("https://openspeech.bytedance.com")
    }

    /// A client against the given endpoint with the given credential.
    pub fn new(base_url: String, access_token: String) -> (r: Client)
        ensures
            r.base_url == base_url,
            r.access_token == access_token,
    {
        Client { base_url, access_token }
    }

    /// The authorization header value attached, unconditionally, to every
    /// call; a caller cannot override the credential.
    pub fn authorization_value(&self) -> (r: String)
        ensures
            r@ == "Bearer; "@ + self.access_token@,
    {
        String::from_str("Bearer; ").concat(self.access_token.as_str())
    }

    /// Resolve a path against the configured base endpoint; a failure to
    /// resolve is a `Configuration` error.
    pub fn resolve(&self, path: &str) -> (r: Result<String, Error>)
        ensures
            match r {
                Ok(s) => resolved_url(self.base_url@, path@) == Some(s@),
                Err(e) => resolved_url(self.base_url@, path@) is None && e
                    == Error::Configuration,
            },
    {
        match join_url(self.base_url.as_str(), path) {
            Some(s) => Ok(s),
            None => Err(Error::Configuration),
        }
    }
}

} // verus!
