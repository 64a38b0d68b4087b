//! The builders of listeners, named as the relay names tunnels.

use vstd::prelude::*;
use crate::listener_builder::HttpListenerBuilder;
use crate::listener_builder::LabeledListenerBuilder;
use crate::listener_builder::TcpListenerBuilder;
use crate::listener_builder::TlsListenerBuilder;

verus! {

/// The settings of a tunnel that backs an HTTP endpoint.
pub type NgrokHttpTunnelBuilder = HttpListenerBuilder;

/// The settings of a tunnel that backs a TCP endpoint.
pub type NgrokTcpTunnelBuilder = TcpListenerBuilder;

/// The settings of a tunnel that backs a TLS endpoint.
pub type NgrokTlsTunnelBuilder = TlsListenerBuilder;

/// The settings of a labeled tunnel.
pub type NgrokLabeledTunnelBuilder = LabeledListenerBuilder;

} // verus!
