//! Destinations of forwarding: from what a host writes to the URL that
//! connections are forwarded to.
//!
//! A destination is read in this order. A bare number is a port of this
//! machine. An address that carries a scheme is a URL already. An address
//! that holds a path separator is a local socket, whatever else it holds.
//! An address without a colon, or of the shape of a host and a port, is a
//! TCP destination. Anything else is taken to be a URL.

use vstd::prelude::*;
use crate::error::failure;
use crate::error::AgentError;
use crate::error::ErrorKind;
use crate::text::all_digits;
use crate::text::is_digit;
use crate::text::is_i32_text;
use crate::outside::parse_url;
use crate::text::parses_as_i32;
use crate::outside::regex_finds;
use crate::outside::regex_search;
use crate::outside::url_parse;
use crate::text::contains_char;
use crate::text::contains_text;
use crate::text::holds_text;
use crate::text::joined;
use crate::text::owned;
use crate::text::starts_with;

verus! {

/// The scheme of a local socket, with no host part, so that a path may be
/// relative.
pub const UNIX_PREFIX: &'static str = "unix:";

/// The scheme of a named pipe.
pub const PIPE_PREFIX: &'static str = "pipe:";

/// The scheme of a TCP destination.
pub const TCP_PREFIX: &'static str = "tcp://";

/// The TCP destination on this machine, up to the port.
pub const LOCAL_TCP_PREFIX: &'static str = "tcp://localhost:";

/// What stands between a scheme and the rest of a URL.
pub const SCHEME_MARK: &'static str = "://";

/// The shape of a host and a port written without a scheme.
pub const HOST_PORT_PATTERN: &'static str = "^[a-z0-9\\-\\.]+:\\d+$";

/// The text has the shape of a host and a port, as the pattern reads it.
pub open spec fn host_port_shaped(addr: Seq<char>) -> bool {
    regex_search(HOST_PORT_PATTERN@, addr) == Some(true)
}

/// The address carries a scheme: it holds `://`, or it begins with the
/// scheme of a local socket or of a named pipe.
pub open spec fn carries_scheme(addr: Seq<char>) -> bool {
    holds_text(addr, SCHEME_MARK@) || UNIX_PREFIX@.is_prefix_of(addr) || PIPE_PREFIX@.is_prefix_of(
        addr,
    )
}

/// An address with the scheme it is given where it has none. `shaped` says
/// whether the address has the shape of a host and a port.
///
/// A bare number is a port of this machine. An address that carries a
/// scheme stays as it is. Of the others, one that holds a path separator is
/// a local socket, even where it also looks like a host and a port; one
/// without a colon, or of the shape of a host and a port, is a TCP
/// destination; and any other is left as it is, to be read as a URL.
pub open spec fn with_scheme(addr: Seq<char>, shaped: bool) -> Seq<char> {
    if is_i32_text(addr) {
        LOCAL_TCP_PREFIX@ + addr
    } else if carries_scheme(addr) {
        addr
    } else if addr.contains('/') {
        UNIX_PREFIX@ + addr
    } else if !addr.contains(':') || shaped {
        TCP_PREFIX@ + addr
    } else {
        addr
    }
}

/// The message for an address that is no URL.
pub open spec fn cannot_parse(addr: Seq<char>, error: Seq<char>) -> Seq<char> {
    "Cannot parse address: "@ + addr + ", error: "@ + error
}

/// The URL to forward to, from an address with its scheme and what parsing
/// it gave.
pub open spec fn parsed_destination(
    addr: Seq<char>,
    parsed: Result<Seq<char>, Seq<char>>,
) -> Result<Seq<char>, Seq<char>> {
    match parsed {
        Ok(url) => Ok(url),
        Err(error) => Err(cannot_parse(addr, error)),
    }
}

/// The URL that an address is forwarded to, or the message that refuses it.
pub open spec fn destination(addr: Seq<char>) -> Result<Seq<char>, Seq<char>> {
    let full = with_scheme(addr, host_port_shaped(addr));
    parsed_destination(full, url_parse(full))
}

/// Reports whether an address carries a scheme.
pub fn has_scheme(addr: &str) -> (yes: bool)
    ensures
        yes == carries_scheme(addr@),
{
    contains_text(addr, SCHEME_MARK) || starts_with(addr, UNIX_PREFIX) || starts_with(
        addr,
        PIPE_PREFIX,
    )
}

/// Gives an address the scheme it lacks, given whether it has the shape of
/// a host and a port.
pub fn add_scheme(addr: &str, shaped: bool) -> (full: String)
    ensures
        full@ == with_scheme(addr@, shaped),
{
    if parses_as_i32(addr) {
        joined(LOCAL_TCP_PREFIX, addr)
    } else if has_scheme(addr) {
        owned(addr)
    } else if contains_char(addr, '/') {
        joined(UNIX_PREFIX, addr)
    } else if !contains_char(addr, ':') || shaped {
        joined(TCP_PREFIX, addr)
    } else {
        owned(addr)
    }
}

/// Gives an address the scheme it lacks.
pub fn normalize(addr: &str) -> (full: String)
    ensures
        full@ == with_scheme(addr@, host_port_shaped(addr@)),
{
    let shaped = match regex_finds(HOST_PORT_PATTERN, addr) {
        Some(found) => found,
        None => false,
    };
    add_scheme(addr, shaped)
}

/// The URL to forward to, from an address with its scheme and what parsing
/// it gave: the URL as parsed, or a configuration error that names the
/// address and the parse error.
pub fn checked_destination(
    addr: &str,
    parsed: Result<String, String>,
) -> (url: Result<String, AgentError>)
    ensures
        match url {
            Ok(u) => parsed is Ok && u@ == parsed->Ok_0@,
            Err(e) => parsed is Err && e.kind == ErrorKind::Configuration && e.text()
                == cannot_parse(addr@, parsed->Err_0@),
        },
{
    match parsed {
        Ok(url) => Ok(url),
        Err(error) => {
            let head = joined("Cannot parse address: ", addr);
            let middle = joined(head.as_str(), ", error: ");
            let message = joined(middle.as_str(), error.as_str());
            Err(failure(ErrorKind::Configuration, message.as_str()))
        },
    }
}

/// The URL that an address is forwarded to. The address is given a scheme
/// where it has none, then parsed as a URL; an address that does not parse
/// is a configuration error.
pub fn forward_url(addr: &str) -> (url: Result<String, AgentError>)
    ensures
        match url {
            Ok(u) => destination(addr@) == Ok::<Seq<char>, Seq<char>>(u@),
            Err(e) => e.kind == ErrorKind::Configuration && destination(addr@) == Err::<
                Seq<char>,
                Seq<char>,
            >(e.text()),
        },
{
    let full = normalize(addr);
    let parsed = parse_url(full.as_str());
    checked_destination(full.as_str(), parsed)
}

/// A bare number holds neither a path separator nor a colon.
pub proof fn number_is_plain(addr: Seq<char>)
    requires
        is_i32_text(addr),
    ensures
        !addr.contains('/'),
        !addr.contains(':'),
{
    let signed = addr.len() > 0 && (addr[0] == '+' || addr[0] == '-');
    let digits = if signed {
        addr.skip(1)
    } else {
        addr
    };
    assert(all_digits(digits));
    assert forall|i: int| 0 <= i < addr.len() implies addr[i] != '/' && addr[i] != ':' by {
        if signed {
            if i > 0 {
                assert(digits[i - 1] == addr[i]);
                assert(is_digit(digits[i - 1]));
            }
        } else {
            assert(is_digit(digits[i]));
        }
    }
}

/// A bare number is a port of this machine, whatever its shape is said to
/// be.
pub proof fn bare_port_is_local(addr: Seq<char>, shaped: bool)
    requires
        is_i32_text(addr),
    ensures
        with_scheme(addr, shaped) == LOCAL_TCP_PREFIX@ + addr,
{
}

/// The path separator wins: an address that carries no scheme and holds a
/// path separator is a local socket, colon or not, and whatever its shape
/// is said to be.
pub proof fn path_separator_wins(addr: Seq<char>, shaped: bool)
    requires
        addr.contains('/'),
        !carries_scheme(addr),
    ensures
        with_scheme(addr, shaped) == UNIX_PREFIX@ + addr,
{
    if is_i32_text(addr) {
        number_is_plain(addr);
    }
}

/// An address that is no number, carries no scheme and holds no path
/// separator is a TCP destination where it has no colon, or has the shape
/// of a host and a port.
pub proof fn bare_address_is_tcp(addr: Seq<char>, shaped: bool)
    requires
        !is_i32_text(addr),
        !carries_scheme(addr),
        !addr.contains('/'),
        !addr.contains(':') || shaped,
    ensures
        with_scheme(addr, shaped) == TCP_PREFIX@ + addr,
{
}

/// A bare number carries no scheme.
pub proof fn number_has_no_scheme(addr: Seq<char>)
    requires
        is_i32_text(addr),
    ensures
        !carries_scheme(addr),
{
    number_is_plain(addr);
    reveal_strlit("://");
    reveal_strlit("unix:");
    reveal_strlit("pipe:");
    if holds_text(addr, SCHEME_MARK@) {
        let at = choose|at: int| crate::text::occurs_at(addr, SCHEME_MARK@, at);
        assert(addr.subrange(at, at + 3)[0] == ':');
        assert(addr[at] == ':');
    }
    if UNIX_PREFIX@.is_prefix_of(addr) {
        assert(addr.subrange(0, 5)[4] == ':');
        assert(addr[4] == ':');
    }
    if PIPE_PREFIX@.is_prefix_of(addr) {
        assert(addr.subrange(0, 5)[4] == ':');
        assert(addr[4] == ':');
    }
}

/// An address that carries a scheme is left as it is.
pub proof fn url_is_left_alone(addr: Seq<char>, shaped: bool)
    requires
        carries_scheme(addr),
    ensures
        with_scheme(addr, shaped) == addr,
{
    if is_i32_text(addr) {
        number_has_no_scheme(addr);
    }
}

} // verus!
