//! Error types: transport-level failures and the single error shape handed
//! to the user interface.

use vstd::prelude::*;

use crate::address::parse_error_text;

verus! {

/// A failure of the gateway client.
#[derive(Debug)]
pub enum ProtocolClientError {
    /// The configured base URL, or a URL built from it, did not parse.
    InvalidUrl(url::ParseError),
    /// The request failed, or the gateway answered with a status outside 2xx.
    Http { status: Option<u16>, message: String },
    /// A response body or a streamed payload was not the expected JSON.
    Deserialize(String),
    /// Reading the underlying stream failed.
    Io(String),
    /// Any other protocol violation.
    Protocol(String),
}

/// The text that stands after the fixed prefix of an error's message, for the
/// variants whose text the library holds itself.
pub open spec fn detail_text(e: ProtocolClientError) -> Seq<char> {
    match e {
        ProtocolClientError::InvalidUrl(_) => Seq::empty(),
        ProtocolClientError::Http { message, .. } => message@,
        ProtocolClientError::Deserialize(m) => m@,
        ProtocolClientError::Io(m) => m@,
        ProtocolClientError::Protocol(m) => m@,
    }
}

/// The fixed prefix that opens each variant's message.
pub open spec fn error_prefix(e: ProtocolClientError) -> Seq<char> {
    match e {
        ProtocolClientError::InvalidUrl(_) => "invalid base url: "@,
        ProtocolClientError::Http { .. } => "http request failed: "@,
        ProtocolClientError::Deserialize(_) => "failed to decode response: "@,
        ProtocolClientError::Io(_) => "stream error: "@,
        ProtocolClientError::Protocol(_) => "protocol error: "@,
    }
}

impl ProtocolClientError {
    /// A copy of this error.
    pub fn duplicate(&self) -> (r: Self)
        ensures
            r == *self,
    {
        match self {
            ProtocolClientError::InvalidUrl(e) => ProtocolClientError::InvalidUrl(*e),
            ProtocolClientError::Http { status, message } => ProtocolClientError::Http {
                status: *status,
                message: message.clone(),
            },
            ProtocolClientError::Deserialize(m) => ProtocolClientError::Deserialize(m.clone()),
            ProtocolClientError::Io(m) => ProtocolClientError::Io(m.clone()),
            ProtocolClientError::Protocol(m) => ProtocolClientError::Protocol(m.clone()),
        }
    }

    /// The human-readable message of this error: a prefix naming its kind,
    /// then its detail.
    pub fn message(&self) -> (r: String)
        ensures
            r@.len() >= error_prefix(*self).len(),
            *self is InvalidUrl ==> r@.len() > error_prefix(*self).len(),
            r@.subrange(0, error_prefix(*self).len() as int) == error_prefix(*self),
            !(*self is InvalidUrl) ==> r@ == error_prefix(*self) + detail_text(*self),
    {
        let prefix = match self {
            ProtocolClientError::InvalidUrl(_) => "invalid base url: ",
            ProtocolClientError::Http { .. } => "http request failed: ",
            ProtocolClientError::Deserialize(_) => "failed to decode response: ",
            ProtocolClientError::Io(_) => "stream error: ",
            ProtocolClientError::Protocol(_) => "protocol error: ",
        };
        let mut text = prefix.to_string();
        let ghost p = text@;
        match self {
            ProtocolClientError::InvalidUrl(e) => {
                let detail = parse_error_text(e);
                text.append(detail.as_str());
            },
            ProtocolClientError::Http { message, .. } => text.append(message.as_str()),
            ProtocolClientError::Deserialize(m) => text.append(m.as_str()),
            ProtocolClientError::Io(m) => text.append(m.as_str()),
            ProtocolClientError::Protocol(m) => text.append(m.as_str()),
        }
        assert(text@.subrange(0, p.len() as int) =~= p);
        text
    }
}

/// The one error shape that the dashboard's capabilities report.
#[derive(Debug, PartialEq, Eq)]
pub enum InterfaceError {
    /// A failure, described for display.
    Message(String),
    /// The capability is not offered by this backend.
    Unimplemented,
}

impl InterfaceError {
    /// Wraps a client failure as a displayable message.
    pub fn from_proto_error(err: ProtocolClientError) -> (r: InterfaceError)
        ensures
            r is Message,
            r->Message_0@.subrange(0, error_prefix(err).len() as int) == error_prefix(err),
            !(err is InvalidUrl) ==> r->Message_0@ == error_prefix(err) + detail_text(err),
    {
        InterfaceError::Message(err.message())
    }
}

} // verus!
