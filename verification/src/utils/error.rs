use vstd::prelude::*;
use vstd::string::*;

verus! {

/// What can go wrong in the proxy, each kind with a message.
#[derive(Debug)]
pub enum FerrumError {
    /// A malformed request or response, or a broken rule of the pipeline.
    ProxyError(String),
    /// Generating, persisting or validating a root or leaf certificate failed.
    CertificateError(String),
    /// Binding, accepting, the handshake or reaching the origin failed.
    NetworkError(String),
}

/// The kind of a `FerrumError`, without its message.
#[derive(Clone, Copy, Debug, PartialEq, Eq, Structural)]
pub enum ErrorKind {
    Proxy,
    Certificate,
    Network,
}

impl FerrumError {
    /// The message that the error carries.
    pub open spec fn message(&self) -> Seq<char> {
        match self {
            FerrumError::ProxyError(m) => m@,
            FerrumError::CertificateError(m) => m@,
            FerrumError::NetworkError(m) => m@,
        }
    }

    pub open spec fn spec_kind(&self) -> ErrorKind {
        match self {
            FerrumError::ProxyError(_) => ErrorKind::Proxy,
            FerrumError::CertificateError(_) => ErrorKind::Certificate,
            FerrumError::NetworkError(_) => ErrorKind::Network,
        }
    }

    /// The words that introduce an error of the given kind in its text.
    pub open spec fn prefix(kind: ErrorKind) -> Seq<char> {
        match kind {
            ErrorKind::Proxy => "Proxy error: "@,
            ErrorKind::Certificate => "Certificate error: "@,
            ErrorKind::Network => "Network error: "@,
        }
    }

    /// The text of the error: the words for its kind, then its message.
    pub open spec fn text(&self) -> Seq<char> {
        Self::prefix(self.spec_kind()) + self.message()
    }

    #[verifier::when_used_as_spec(spec_kind)]
    pub fn kind(&self) -> (kind: ErrorKind)
        ensures
            kind == self.spec_kind(),
    {
        match self {
            FerrumError::ProxyError(_) => ErrorKind::Proxy,
            FerrumError::CertificateError(_) => ErrorKind::Certificate,
            FerrumError::NetworkError(_) => ErrorKind::Network,
        }
    }

    /// Renders the error as a line for a person to read.
    pub fn to_text(&self) -> (line: String)
        ensures
            line@ == self.text(),
    {
        match self {
            FerrumError::ProxyError(m) => String::from_str("Proxy error: ").concat(m.as_str()),
            FerrumError::CertificateError(m) => String::from_str("Certificate error: ").concat(
                m.as_str(),
            ),
            FerrumError::NetworkError(m) => String::from_str("Network error: ").concat(
                m.as_str(),
            ),
        }
    }
}

} // verus!
