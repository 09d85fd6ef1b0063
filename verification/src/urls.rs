//! The backend endpoint's URL handling. Parsing and resolving URLs is
//! the url crate's work, behind trusted wrappers that hand the parts out
//! as plain strings; every decision taken on those parts — endpoint
//! normalization, scheme gating, host/port selection, request targets —
//! is verified.

use vstd::prelude::*;
use crate::text::{str_eq, trim_str, trimmed};

verus! {

/// The parts of a parsed absolute URL, as plain values.
pub struct UrlParts {
    pub scheme: String,
    pub host: Option<String>,
    pub port_or_default: Option<u16>,
    pub path: String,
    pub query: Option<String>,
    pub serialized: String,
}

/// The mathematical view of `UrlParts`.
pub struct UrlPartsView {
    pub scheme: Seq<char>,
    pub host: Option<Seq<char>>,
    pub port_or_default: Option<u16>,
    pub path: Seq<char>,
    pub query: Option<Seq<char>>,
    pub serialized: Seq<char>,
}

impl View for UrlParts {
    type V = UrlPartsView;

    open spec fn view(&self) -> UrlPartsView {
        UrlPartsView {
            scheme: self.scheme@,
            host: match self.host {
                Some(h) => Some(h@),
                None => None,
            },
            port_or_default: self.port_or_default,
            path: self.path@,
            query: match self.query {
                Some(q) => Some(q@),
                None => None,
            },
            serialized: self.serialized@,
        }
    }
}

/// What url::Url::parse makes of a string: `None` where parsing fails,
/// else the URL's parts. A function of the string alone.
pub uninterp spec fn url_parts_of(s: Seq<char>) -> Option<UrlPartsView>;

/// What resolving `rel` against the absolute URL `base` yields, as
/// url::Url::join does it. A function of the two strings alone.
pub uninterp spec fn url_join_of(base: Seq<char>, rel: Seq<char>) -> Option<UrlPartsView>;

/// The serialization of a parsed URL after its path is set to `/`.
pub uninterp spec fn url_rooted_of(s: Seq<char>) -> Option<Seq<char>>;

/// Relies on url::Url::parse and the accessors scheme, host_str,
/// port_or_known_default, path, query, and its Display serialization:
/// parses an absolute URL and hands its parts out as plain strings.
#[verifier::external_body]
fn parse_url_parts(s: &str) -> (r: Option<UrlParts>)
    ensures
        (r is Some) == (url_parts_of(s@) is Some),
        r matches Some(p) ==> Some(p@) == url_parts_of(s@),
{
    let u = match url::Url::parse(s) {
        Ok(u) => u,
        Err(_) => return None,
    };
    Some(UrlParts {
        scheme: u.scheme().to_string(),
        host: u.host_str().map(|h| h.to_string()),
        port_or_default: u.port_or_known_default(),
        path: u.path().to_string(),
        query: u.query().map(|q| q.to_string()),
        serialized: u.to_string(),
    })
}

/// Relies on url::Url::parse and url::Url::join: resolves `rel` against
/// the absolute URL `base` and hands the parts out as plain strings.
#[verifier::external_body]
fn join_url_parts(base: &str, rel: &str) -> (r: Option<UrlParts>)
    ensures
        (r is Some) == (url_join_of(base@, rel@) is Some),
        r matches Some(p) ==> Some(p@) == url_join_of(base@, rel@),
{
    let u = match url::Url::parse(base).and_then(|b| b.join(rel)) {
        Ok(u) => u,
        Err(_) => return None,
    };
    Some(UrlParts {
        scheme: u.scheme().to_string(),
        host: u.host_str().map(|h| h.to_string()),
        port_or_default: u.port_or_known_default(),
        path: u.path().to_string(),
        query: u.query().map(|q| q.to_string()),
        serialized: u.to_string(),
    })
}

/// Relies on url::Url::parse, set_path and the Display serialization:
/// re-serializes the URL with its path set to `/`. Parsing the same
/// string succeeds here exactly as it does in `parse_url_parts`.
#[verifier::external_body]
fn reserialize_with_root_path(s: &str) -> (r: Option<String>)
    ensures
        (r is Some) == (url_rooted_of(s@) is Some),
        r matches Some(t) ==> Some(t@) == url_rooted_of(s@),
        (r is Some) == (url_parts_of(s@) is Some),
{
    match url::Url::parse(s) {
        Ok(mut u) => {
            u.set_path("/");
            Some(u.to_string())
        },
        Err(_) => None,
    }
}

/// The endpoint assumed when no usable one is configured.
pub open spec fn default_backend_url_spec() -> Seq<char> {
    "http://127.0.0.1:6185/"@
}

pub fn default_backend_url() -> (r: String)
    ensures
        r@ == default_backend_url_spec(),
{
    "http://127.0.0.1:6185/".to_owned()
}

/// The normalized backend endpoint: the configured value trimmed; the
/// default endpoint where that is empty or fails to parse as a URL; the
/// parsed URL's serialization otherwise, its path defaulted to `/`.
pub open spec fn normalize_backend_url_spec(raw: Seq<char>) -> Seq<char> {
    let t = trimmed(raw);
    if t.len() == 0 {
        default_backend_url_spec()
    } else {
        match url_parts_of(t) {
            None => default_backend_url_spec(),
            Some(p) => if p.path.len() == 0 {
                match url_rooted_of(t) {
                    Some(rooted) => rooted,
                    None => default_backend_url_spec(),
                }
            } else {
                p.serialized
            },
        }
    }
}

/// Normalizes a configured backend endpoint string.
pub fn normalize_backend_url(raw: &str) -> (r: String)
    ensures
        r@ == normalize_backend_url_spec(raw@),
{
    let t = trim_str(raw);
    if t.unicode_len() == 0 {
        return default_backend_url();
    }
    match parse_url_parts(t) {
        None => default_backend_url(),
        Some(p) => {
            if p.path.as_str().unicode_len() == 0 {
                match reserialize_with_root_path(t) {
                    Some(rooted) => rooted,
                    None => default_backend_url(),
                }
            } else {
                p.serialized
            }
        },
    }
}

/// Why a URL cannot be handed to the system browser.
#[derive(PartialEq, Eq, Structural, Clone, Copy, Debug)]
pub enum OpenUrlError {
    /// The string is empty after trimming.
    Empty,
    /// The string does not parse as an absolute URL.
    Invalid,
    /// The URL's scheme is neither `http` nor `https`.
    UnsupportedScheme,
}

/// Whether a URL may be opened externally: it must parse, and its scheme
/// must be `http` or `https`; the serialized form is what gets opened.
pub open spec fn parse_openable_url_spec(raw: Seq<char>) -> Result<Seq<char>, OpenUrlError> {
    let t = trimmed(raw);
    if t.len() == 0 {
        Err(OpenUrlError::Empty)
    } else {
        match url_parts_of(t) {
            None => Err(OpenUrlError::Invalid),
            Some(p) => if p.scheme == "http"@ || p.scheme == "https"@ {
                Ok(p.serialized)
            } else {
                Err(OpenUrlError::UnsupportedScheme)
            },
        }
    }
}

/// Validates a URL for the system browser.
pub fn parse_openable_url(raw: &str) -> (r: Result<String, OpenUrlError>)
    ensures
        r matches Ok(u) ==> parse_openable_url_spec(raw@) == Ok::<Seq<char>, OpenUrlError>(u@),
        r matches Err(e) ==> parse_openable_url_spec(raw@) == Err::<Seq<char>, OpenUrlError>(e),
{
    let t = trim_str(raw);
    if t.unicode_len() == 0 {
        return Err(OpenUrlError::Empty);
    }
    match parse_url_parts(t) {
        None => Err(OpenUrlError::Invalid),
        Some(p) => {
            if str_eq(p.scheme.as_str(), "http") || str_eq(p.scheme.as_str(), "https") {
                Ok(p.serialized)
            } else {
                Err(OpenUrlError::UnsupportedScheme)
            }
        },
    }
}

/// Where a reachability probe should connect: the endpoint's host, and
/// its port or known default, 80 failing either.
pub open spec fn ping_endpoint_spec(url: Seq<char>) -> Option<(Seq<char>, u16)> {
    match url_parts_of(url) {
        None => None,
        Some(p) => match p.host {
            None => None,
            Some(h) => Some(
                (
                    h,
                    match p.port_or_default {
                        Some(q) => q,
                        None => 80,
                    },
                ),
            ),
        },
    }
}

/// Resolves the host and port a reachability probe connects to.
pub fn ping_endpoint(backend_url: &str) -> (r: Option<(String, u16)>)
    ensures
        (r is Some) == (ping_endpoint_spec(backend_url@) is Some),
        r matches Some(e) ==> ping_endpoint_spec(backend_url@) == Some((e.0@, e.1)),
{
    match parse_url_parts(backend_url) {
        None => None,
        Some(p) => match p.host {
            None => None,
            Some(h) => {
                let port = match p.port_or_default {
                    Some(q) => q,
                    None => 80,
                };
                Some((h, port))
            },
        },
    }
}

/// The request-target for a parsed URL: its path, with `?` and the query
/// appended when one is present; `/` where that would be empty.
pub open spec fn request_target_spec(p: UrlPartsView) -> Seq<char> {
    let t = match p.query {
        Some(q) => p.path + seq!['?'] + q,
        None => p.path,
    };
    if t.len() == 0 {
        seq!['/']
    } else {
        t
    }
}

/// Builds the request-target string for a parsed URL.
pub fn request_target(p: &UrlParts) -> (r: String)
    ensures
        r@ == request_target_spec(p@),
{
    proof {
        reveal_strlit("?");
        reveal_strlit("/");
    }
    let mut out = p.path.clone();
    match &p.query {
        Some(q) => {
            out.append("?");
            out.append(q.as_str());
        },
        None => {},
    }
    if out.as_str().unicode_len() == 0 {
        proof {
            assert(request_target_spec(p@) =~= "/"@);
        }
        return "/".to_owned();
    }
    proof {
        assert(out@ =~= request_target_spec(p@));
    }
    out
}

/// What a single-shot request needs of its URL: host, port, and the
/// request-target. Present only for an `http` URL with a host, as the
/// hand-rolled client speaks plain TCP.
pub open spec fn request_endpoint_spec(base: Seq<char>, rel: Seq<char>) -> Option<
    (Seq<char>, u16, Seq<char>),
> {
    match url_join_of(base, rel) {
        None => None,
        Some(p) => if p.scheme != "http"@ {
            None
        } else {
            match p.host {
                None => None,
                Some(h) => Some(
                    (
                        h,
                        match p.port_or_default {
                            Some(q) => q,
                            None => 80,
                        },
                        request_target_spec(p),
                    ),
                ),
            }
        },
    }
}

/// Resolves an API path against the backend endpoint into the host,
/// port, and request-target of one HTTP request.
pub fn resolve_request_endpoint(base: &str, api_path: &str) -> (r: Option<(String, u16, String)>)
    ensures
        (r is Some) == (request_endpoint_spec(base@, api_path@) is Some),
        r matches Some(t) ==> request_endpoint_spec(base@, api_path@) == Some((t.0@, t.1, t.2@)),
{
    match join_url_parts(base, api_path) {
        None => None,
        Some(p) => {
            if !str_eq(p.scheme.as_str(), "http") {
                return None;
            }
            let target = request_target(&p);
            match p.host {
                None => None,
                Some(h) => {
                    let port = match p.port_or_default {
                        Some(q) => q,
                        None => 80,
                    };
                    Some((h, port, target))
                },
            }
        },
    }
}

} // verus!
