use vstd::prelude::*;

verus! {

/// The result of a client operation.
pub type Result<T> = core::result::Result<T, Error>;

/// Every failure the client reports, by kind, each with a diagnostic text.
#[derive(Debug, Clone)]
pub enum Error {
    /// gRPC transport failure.
    GrpcTransport(String),
    /// A gRPC call that ended with a non-OK status.
    GrpcStatus(String),
    /// An HTTP request that could not be completed.
    Http(String),
    /// A QUIC connection that failed or timed out.
    QuicConnection(String),
    /// A failed read on a QUIC stream.
    QuicRead(String),
    /// A failed write on a QUIC stream.
    QuicWrite(String),
    /// A failure of the HTTP/3 layer.
    H3(String),
    /// A body that could not be encoded or decoded.
    Serialization(String),
    /// A local I/O failure.
    Io(String),
    /// A request address that is not a valid URL.
    InvalidUrl(String),
    /// The key is absent.
    NotFound(String),
    /// The server reported a failure or answered with a non-success status.
    OperationFailed(String),
    /// A reply that claims success but lacks its payload.
    InvalidResponse(String),
    /// A malformed endpoint, address or transport setting.
    Configuration(String),
    /// A TLS trust configuration that could not be built.
    Tls(String),
    /// An operation that the selected protocol does not offer.
    Unsupported(String),
    /// Any other failure.
    Generic(String),
}

/// The text shown for an error: a prefix naming its kind, then its detail.
pub open spec fn error_text(e: Error) -> Seq<char> {
    match e {
        Error::GrpcTransport(s) => "gRPC error: "@ + s@,
        Error::GrpcStatus(s) => "gRPC status error: "@ + s@,
        Error::Http(s) => "HTTP error: "@ + s@,
        Error::QuicConnection(s) => "QUIC connection error: "@ + s@,
        Error::QuicRead(s) => "QUIC read error: "@ + s@,
        Error::QuicWrite(s) => "QUIC write error: "@ + s@,
        Error::H3(s) => "H3 error: "@ + s@,
        Error::Serialization(s) => "Serialization error: "@ + s@,
        Error::Io(s) => "I/O error: "@ + s@,
        Error::InvalidUrl(s) => "Invalid URL: "@ + s@,
        Error::NotFound(s) => "Object not found: "@ + s@,
        Error::OperationFailed(s) => "Operation failed: "@ + s@,
        Error::InvalidResponse(s) => "Invalid response: "@ + s@,
        Error::Configuration(s) => "Configuration error: "@ + s@,
        Error::Tls(s) => "TLS error: "@ + s@,
        Error::Unsupported(s) => "Unsupported operation: "@ + s@,
        Error::Generic(s) => ""@ + s@,
    }
}

impl Error {
    /// The human-readable text of this error.
    pub fn message(&self) -> (r: String)
        ensures
            r@ == error_text(*self),
    {
        let (prefix, detail): (&str, &String) = match self {
            Error::GrpcTransport(s) => ("gRPC error: ", s),
            Error::GrpcStatus(s) => ("gRPC status error: ", s),
            Error::Http(s) => ("HTTP error: ", s),
            Error::QuicConnection(s) => ("QUIC connection error: ", s),
            Error::QuicRead(s) => ("QUIC read error: ", s),
            Error::QuicWrite(s) => ("QUIC write error: ", s),
            Error::H3(s) => ("H3 error: ", s),
            Error::Serialization(s) => ("Serialization error: ", s),
            Error::Io(s) => ("I/O error: ", s),
            Error::InvalidUrl(s) => ("Invalid URL: ", s),
            Error::NotFound(s) => ("Object not found: ", s),
            Error::OperationFailed(s) => ("Operation failed: ", s),
            Error::InvalidResponse(s) => ("Invalid response: ", s),
            Error::Configuration(s) => ("Configuration error: ", s),
            Error::Tls(s) => ("TLS error: ", s),
            Error::Unsupported(s) => ("Unsupported operation: ", s),
            Error::Generic(s) => ("", s),
        };
        let mut text = String::from_str(prefix);
        text.append(detail.as_str());
        text
    }
}

impl From<String> for Error {
    fn from(s: String) -> (r: Error) {
        Error::Generic(s)
    }
}

impl vstd::std_specs::convert::FromSpecImpl<String> for Error {
    open spec fn obeys_from_spec() -> bool {
        true
    }

    open spec fn from_spec(s: String) -> Error {
        Error::Generic(s)
    }
}

impl<'a> From<&'a str> for Error {
    fn from(s: &'a str) -> (r: Error)
        ensures
            r matches Error::Generic(t) && t@ == s@,
    {
        Error::Generic(String::from_str(s))
    }
}

impl<'a> vstd::std_specs::convert::FromSpecImpl<&'a str> for Error {
    open spec fn obeys_from_spec() -> bool {
        false
    }

    open spec fn from_spec(s: &'a str) -> Error {
        arbitrary()
    }
}

} // verus!
