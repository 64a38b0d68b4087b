//! Calls into other crates and into parts of the standard library that the
//! verifier takes on trust. Each function here only makes the call and
//! converts its arguments and result; its contract is believed, not proved.

use vstd::prelude::*;
use crate::listener::ConnectCause;
use crate::listener_builder::ProxyProto;
use crate::listener_builder::Scheme;

verus! {

/// An I/O error of the standard library, carried through as it is.
#[verifier::external_type_specification]
#[verifier::external_body]
pub struct ExIoError(std::io::Error);

/// The upper-case form of a text, as `str::to_uppercase` gives it.
pub uninterp spec fn uppercased(s: Seq<char>) -> Seq<char>;

/// What `regex::Regex::new(pattern)` followed by `find(text)` gives: `None`
/// when the pattern is refused, else whether a match was found.
pub uninterp spec fn regex_search(pattern: Seq<char>, text: Seq<char>) -> Option<bool>;

/// What `url::Url::parse` gives for a text: the URL, serialised, or the
/// parse error, displayed.
pub uninterp spec fn url_parse(text: Seq<char>) -> Result<Seq<char>, Seq<char>>;

/// What `ngrok::session::SessionBuilder::server_addr` answers for an
/// address: `None` when it accepts it, else its error, displayed.
pub uninterp spec fn server_addr_refusal(addr: Seq<char>) -> Option<Seq<char>>;

/// The connect failure behind an I/O error: the variant of the relay's
/// connect error that is the error's source, if its source is one.
pub uninterp spec fn cause_behind(e: std::io::Error) -> Option<ConnectCause>;

/// The scheme that an upper-case text names.
pub open spec fn scheme_named(upper: Seq<char>) -> Option<Scheme> {
    if upper == "HTTP"@ {
        Some(Scheme::Http)
    } else if upper == "HTTPS"@ {
        Some(Scheme::Https)
    } else {
        None
    }
}

/// The PROXY protocol version that a text names.
pub open spec fn proxy_proto_named(s: Seq<char>) -> Option<ProxyProto> {
    if s == ""@ {
        Some(ProxyProto::Off)
    } else if s == "1"@ {
        Some(ProxyProto::V1)
    } else if s == "2"@ {
        Some(ProxyProto::V2)
    } else {
        None
    }
}

/// `str::to_uppercase`: the result is the upper-case form of the text.
#[verifier::external_body]
pub(crate) fn to_upper(s: &str) -> (upper: String)
    ensures
        upper@ == uppercased(s@),
{
    s.to_uppercase()
}

/// `regex::Regex::new` and `Regex::find`: compiles the pattern and searches
/// the text; `None` when the pattern does not compile.
#[verifier::external_body]
pub(crate) fn regex_finds(pattern: &str, text: &str) -> (found: Option<bool>)
    ensures
        found == regex_search(pattern@, text@),
{
    match regex::Regex::new(pattern) {
        Ok(re) => Some(re.find(text).is_some()),
        Err(_) => None,
    }
}

/// `url::Url::parse`: the parsed URL written back as text, or the parse
/// error as it displays.
#[verifier::external_body]
pub(crate) fn parse_url(text: &str) -> (parsed: Result<String, String>)
    ensures
        match parsed {
            Ok(url) => url_parse(text@) == Ok::<Seq<char>, Seq<char>>(url@),
            Err(e) => url_parse(text@) == Err::<Seq<char>, Seq<char>>(e@),
        },
{
    match url::Url::parse(text) {
        Ok(url) => Ok(url.to_string()),
        Err(e) => Err(e.to_string()),
    }
}

/// `ngrok::config::Scheme::from_str`: upper-cases the text and accepts
/// `HTTP` and `HTTPS`.
#[verifier::external_body]
pub(crate) fn scheme_from_text(s: &str) -> (scheme: Option<Scheme>)
    ensures
        scheme == scheme_named(uppercased(s@)),
{
    match <ngrok::config::Scheme as std::str::FromStr>::from_str(s) {
        Ok(ngrok::config::Scheme::HTTP) => Some(Scheme::Http),
        Ok(ngrok::config::Scheme::HTTPS) => Some(Scheme::Https),
        Err(_) => None,
    }
}

/// `ngrok::config::ProxyProto::from_str`: accepts the empty text, `1` and `2`.
#[verifier::external_body]
pub(crate) fn proxy_proto_from_text(s: &str) -> (version: Option<ProxyProto>)
    ensures
        version == proxy_proto_named(s@),
{
    match <ngrok::config::ProxyProto as std::str::FromStr>::from_str(s) {
        Ok(ngrok::config::ProxyProto::None) => Some(ProxyProto::Off),
        Ok(ngrok::config::ProxyProto::V1) => Some(ProxyProto::V1),
        Ok(ngrok::config::ProxyProto::V2) => Some(ProxyProto::V2),
        Err(_) => None,
    }
}

/// `ngrok::session::SessionBuilder::server_addr` on a fresh builder: `None`
/// when the address is accepted, else the error as it displays, which is
/// `invalid server address: ` and the address.
#[verifier::external_body]
pub(crate) fn server_addr_check(addr: &str) -> (refusal: Option<String>)
    ensures
        refusal.deep_view() == server_addr_refusal(addr@),
        refusal is Some ==> refusal->Some_0@ == "invalid server address: "@ + addr@,
{
    match ngrok::Session::builder().server_addr(addr) {
        Ok(_) => None,
        Err(e) => Some(e.to_string()),
    }
}

/// `ngrok::session::SessionBuilder::heartbeat_interval` on a fresh builder,
/// with a whole number of seconds. It refuses an interval of more than
/// `i64::MAX` nanoseconds, which no `u32` of seconds reaches, so the answer
/// is always `None`.
#[verifier::external_body]
pub(crate) fn heartbeat_interval_check(seconds: u32) -> (refusal: Option<String>)
    ensures
        refusal is None,
{
    let interval = std::time::Duration::new(seconds.into(), 0);
    match ngrok::Session::builder().heartbeat_interval(interval) {
        Ok(_) => None,
        Err(e) => Some(e.to_string()),
    }
}

/// `ngrok::session::SessionBuilder::heartbeat_tolerance` on a fresh builder,
/// with a whole number of seconds. It refuses a tolerance of more than
/// `i64::MAX` nanoseconds, which no `u32` of seconds reaches, so the answer
/// is always `None`.
#[verifier::external_body]
pub(crate) fn heartbeat_tolerance_check(seconds: u32) -> (refusal: Option<String>)
    ensures
        refusal is None,
{
    let tolerance = std::time::Duration::new(seconds.into(), 0);
    match ngrok::Session::builder().heartbeat_tolerance(tolerance) {
        Ok(_) => None,
        Err(e) => Some(e.to_string()),
    }
}

/// `std::error::Error::source` of an I/O error, where that source is the
/// relay's connect error: which of its variants it is. The answer depends
/// on the error alone.
#[verifier::external_body]
pub(crate) fn reconnect_cause(e: &std::io::Error) -> (cause: Option<ConnectCause>)
    ensures
        cause == cause_behind(*e),
{
    let source = std::error::Error::source(e);
    match source.and_then(|s| s.downcast_ref::<std::sync::Arc<ngrok::session::ConnectError>>()) {
        None => None,
        Some(err) => Some(match **err {
            ngrok::session::ConnectError::Tcp(_) => ConnectCause::Tcp,
            ngrok::session::ConnectError::Tls(_) => ConnectCause::Tls,
            ngrok::session::ConnectError::Start(_) => ConnectCause::Start,
            ngrok::session::ConnectError::Auth(_) => ConnectCause::Auth,
            ngrok::session::ConnectError::Rebind(_) => ConnectCause::Rebind,
            ngrok::session::ConnectError::ProxyConnect(_) => ConnectCause::ProxyConnect,
            ngrok::session::ConnectError::Canceled => ConnectCause::Canceled,
            _ => ConnectCause::Unknown,
        }),
    }
}

/// The `Debug` form of an I/O error. Nothing is claimed of the text.
#[verifier::external_body]
pub(crate) fn debug_text(e: &std::io::Error) -> (text: String) {
    format!("{e:?}")
}

} // verus!
