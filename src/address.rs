//! The gateway's base URL: parsing, normalisation to a trailing `/`, and the
//! joining of endpoint paths onto it.

use vstd::prelude::*;

use crate::error::ProtocolClientError;
use crate::protocol::{uuid_string, uuid_text};

verus! {

#[verifier::external_type_specification]
#[verifier::external_body]
pub struct ExParseError(url::ParseError);

/// Relies on `<url::ParseError as Display>::fmt`: every variant is written as
/// a fixed, non-empty description.
#[verifier::external_body]
pub(crate) fn parse_error_text(e: &url::ParseError) -> (r: String)
    ensures
        r@.len() > 0,
{
    e.to_string()
}

/// What `url::Url::parse` makes of a text: the serialization before the path,
/// the path, and what follows the path; `None` where it refuses the text.
pub uninterp spec fn parsed_url(raw: Seq<char>) -> Option<(Seq<char>, Seq<char>, Seq<char>)>;

/// What `url::Url::join` makes of a reference on the URL that a base text
/// parses to; `None` where either step fails.
pub uninterp spec fn joined_url(base: Seq<char>, reference: Seq<char>) -> Option<Seq<char>>;

/// A parsed URL cut into the text before its path, its path, and the rest.
pub struct UrlParts {
    pub head: String,
    pub path: String,
    pub tail: String,
}

/// Relies on `url::Url::parse`, `url::Url::path` and the slicing of a `Url`
/// at `Position::BeforePath` and `Position::AfterPath`: the three pieces of
/// the parsed URL, which depend on the text alone.
#[verifier::external_body]
fn split_url(raw: &str) -> (r: Result<UrlParts, url::ParseError>)
    ensures
        match r {
            Ok(p) => parsed_url(raw@) == Some((p.head@, p.path@, p.tail@)),
            Err(_) => parsed_url(raw@) is None,
        },
{
    let u = url::Url::parse(raw)?;
    Ok(UrlParts {
        head: u[..url::Position::BeforePath].to_string(),
        path: u.path().to_string(),
        tail: u[url::Position::AfterPath..].to_string(),
    })
}

/// Relies on `url::Url::join` (after `url::Url::parse` of the base): the
/// serialization of the joined URL, which depends on the two texts alone.
#[verifier::external_body]
fn join_url(base: &str, reference: &str) -> (r: Result<String, url::ParseError>)
    ensures
        match r {
            Ok(s) => joined_url(base@, reference@) == Some(s@),
            Err(_) => joined_url(base@, reference@) is None,
        },
{
    url::Url::parse(base).and_then(|b| b.join(reference)).map(String::from)
}

/// The normalized text of the URL that `raw` parses to: its path ends in `/`.
pub open spec fn normalized_href(raw: Seq<char>) -> Seq<char> {
    let (head, path, tail) = parsed_url(raw)->0;
    head + with_trailing_slash(path) + tail
}

/// The normalized path of the URL that `raw` parses to.
pub open spec fn normalized_path(raw: Seq<char>) -> Seq<char> {
    let (head, path, tail) = parsed_url(raw)->0;
    with_trailing_slash(path)
}

/// A path that ends in `/`.
pub open spec fn ends_with_slash(p: Seq<char>) -> bool {
    p.len() > 0 && p.last() == '/'
}

/// The path with a `/` added at its end where it has none.
pub open spec fn with_trailing_slash(p: Seq<char>) -> Seq<char> {
    if ends_with_slash(p) {
        p
    } else {
        p.push('/')
    }
}

/// A path with at most one leading `/` removed, so that it joins relative to
/// the base rather than to the host's root.
pub open spec fn relative_reference(p: Seq<char>) -> Seq<char> {
    if p.len() > 0 && p[0] == '/' {
        p.subrange(1, p.len() as int)
    } else {
        p
    }
}

/// A normalized base URL: its full text and its path, which ends in `/`.
pub struct BaseUrl {
    pub href: String,
    pub path: String,
}

impl BaseUrl {
    pub open spec fn wf(&self) -> bool {
        ends_with_slash(self.path@)
    }
}

/// Parses `raw` and makes its path end in `/`.
pub fn normalize_base_url(raw: &str) -> (r: Result<BaseUrl, ProtocolClientError>)
    ensures
        match r {
            Ok(b) => {
                &&& parsed_url(raw@) is Some
                &&& b.wf()
                &&& b.path@ == normalized_path(raw@)
                &&& b.href@ == normalized_href(raw@)
            },
            Err(e) => parsed_url(raw@) is None && e is InvalidUrl,
        },
{
    match split_url(raw) {
        Err(e) => Err(ProtocolClientError::InvalidUrl(e)),
        Ok(parts) => {
            let mut path = parts.path;
            let n = path.as_str().unicode_len();
            if n == 0 || path.as_str().get_char(n - 1) != '/' {
                path.append("/");
                proof {
                    reveal_strlit("/");
                }
            }
            let mut href = parts.head;
            href.append(path.as_str());
            href.append(parts.tail.as_str());
            Ok(BaseUrl { href, path })
        },
    }
}

/// A normalized base URL that endpoint paths are joined onto.
pub struct Transport {
    pub base: BaseUrl,
}

impl Transport {
    /// Builds the transport for a configured base URL.
    pub fn new(raw: &str) -> (r: Result<Transport, ProtocolClientError>)
        ensures
            match r {
                Ok(t) => {
                    &&& parsed_url(raw@) is Some
                    &&& t.base.wf()
                    &&& t.base.path@ == normalized_path(raw@)
                    &&& t.base.href@ == normalized_href(raw@)
                },
                Err(e) => parsed_url(raw@) is None && e is InvalidUrl,
            },
    {
        match normalize_base_url(raw) {
            Ok(base) => Ok(Transport { base }),
            Err(e) => Err(e),
        }
    }

    /// The URL of `path` under the base: the path, less one leading `/`, is
    /// joined onto the base URL.
    pub fn endpoint(&self, path: &str) -> (r: Result<String, ProtocolClientError>)
        ensures
            match r {
                Ok(u) => joined_url(self.base.href@, relative_reference(path@)) == Some(u@),
                Err(e) => joined_url(self.base.href@, relative_reference(path@)) is None
                    && e is InvalidUrl,
            },
    {
        let n = path.unicode_len();
        let reference = if n > 0 && path.get_char(0) == '/' {
            path.substring_char(1, n)
        } else {
            path
        };
        match join_url(self.base.href.as_str(), reference) {
            Ok(u) => Ok(u),
            Err(e) => Err(ProtocolClientError::InvalidUrl(e)),
        }
    }
}

/// The gateway's address when none is configured.
pub const DEFAULT_PROTOCOL_URL: &'static str = "http://127.0.0.1:7267";

/// The list of dataflows.
pub const DATAFLOWS_PATH: &'static str = "/v1/dataflows";

/// One snapshot of the host's metrics.
pub const SYSTEM_METRICS_PATH: &'static str = "/v1/telemetry/system";

/// The stream of the host's metrics.
pub const SYSTEM_METRICS_STREAM_PATH: &'static str = "/v1/telemetry/system/stream";

/// The stored interface preferences.
pub const PREFERENCES_PATH: &'static str = "/v1/preferences/ui";

/// The base URL to use: the configured one, else the default address.
pub fn resolve_base_url(configured: Option<String>) -> (r: String)
    ensures
        r@ == match configured {
            Some(u) => u@,
            None => DEFAULT_PROTOCOL_URL@,
        },
{
    match configured {
        Some(u) => u,
        None => DEFAULT_PROTOCOL_URL.to_string(),
    }
}

/// The path of the log stream of one dataflow.
pub fn log_stream_path(dataflow_id: u128) -> (r: String)
    ensures
        r@ == "/v1/logs/"@ + uuid_text(dataflow_id) + "/stream"@,
{
    let mut p = "/v1/logs/".to_string();
    let id = uuid_string(dataflow_id);
    p.append(id.as_str());
    p.append("/stream");
    p
}

/// Normalization leaves a path that ends in `/`, adds exactly one `/` to a
/// path without it, and changes nothing on a second pass; a path given
/// without a leading `/` is joined as it is, relative to the base.
pub proof fn law_base_path_normalized(p: Seq<char>)
    ensures
        ends_with_slash(with_trailing_slash(p)),
        !ends_with_slash(p) ==> with_trailing_slash(p) == p.push('/'),
        with_trailing_slash(with_trailing_slash(p)) == with_trailing_slash(p),
        (p.len() == 0 || p[0] != '/') ==> relative_reference(p) == p,
{
}

} // verus!
