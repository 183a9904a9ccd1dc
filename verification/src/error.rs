use vstd::prelude::*;

verus! {

/// The error taxonomy shared by every component of the client.
#[derive(Clone, Copy, Debug, PartialEq, Eq, Structural)]
pub enum Error {
    /// A path could not be resolved against the configured base endpoint,
    /// or a credential could not be turned into a header value.
    Configuration,
    /// A network-level failure reported by the HTTP layer.
    Transport,
    /// Malformed JSON or a schema mismatch, including a bad tri-state
    /// boolean literal.
    Deserialization,
    /// A response arrived without the vendor's `resp` envelope.
    UnexpectedResponseShape,
    /// A required builder field was missing at finalization.
    RequestBuild,
    /// A local file path carries no derivable media-type extension.
    NoExtension,
    /// A local file could not be read.
    Io,
}

impl Error {
    /// The short description of this error kind.
    pub open spec fn spec_message(self) -> Seq<char> {
        match self {
            Error::Configuration => "bad base endpoint or header value"@,
            Error::Transport => "network failure"@,
            Error::Deserialization => "malformed or mismatching payload"@,
            Error::UnexpectedResponseShape => "response envelope is missing"@,
            Error::RequestBuild => "a required request field is missing"@,
            Error::NoExtension => "file path has no extension"@,
            Error::Io => "local file could not be read"@,
        }
    }

    /// A short human-readable description of this error kind.
    pub fn message(self) -> (r: &'static str)
        ensures
            r@ == self.spec_message(),
    {
        match self {
            Error::Configuration => "bad base endpoint or header value",
            Error::Transport => "network failure",
            Error::Deserialization => "malformed or mismatching payload",
            Error::UnexpectedResponseShape => "response envelope is missing",
            Error::RequestBuild => "a required request field is missing",
            Error::NoExtension => "file path has no extension",
            Error::Io => "local file could not be read",
        }
    }
}

} // verus!
