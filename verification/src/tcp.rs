//! Settings that only a TCP endpoint has.

use vstd::prelude::*;
use crate::listener_builder::apply;
use crate::listener_builder::Setting;
use crate::listener_builder::SettingView;
use crate::listener_builder::TcpListenerBuilder;

verus! {

impl TcpListenerBuilder {
    /// The TCP address to request for the endpoint.
    pub fn remote_addr(&mut self, remote_addr: String)
        ensures
            final(self).applied() == old(self).applied().push(
                SettingView::RemoteAddr(remote_addr@),
            ),
            final(self).session_id == old(self).session_id,
    {
        apply(&mut self.settings, Setting::RemoteAddr(remote_addr));
    }
}

} // verus!
