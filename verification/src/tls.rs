//! Settings that only a TLS endpoint has.

use vstd::prelude::*;
use crate::listener_builder::apply;
use crate::listener_builder::Setting;
use crate::listener_builder::SettingView;
use crate::listener_builder::TlsListenerBuilder;

verus! {

impl TlsListenerBuilder {
    /// The domain to request for the endpoint.
    pub fn domain(&mut self, domain: String)
        ensures
            final(self).applied() == old(self).applied().push(SettingView::Domain(domain@)),
            final(self).session_id == old(self).session_id,
    {
        apply(&mut self.settings, Setting::Domain(domain));
    }

    /// A certificate authority for client authentication at the edge.
    pub fn mutual_tlsca(&mut self, mutual_tlsca: Vec<u8>)
        ensures
            final(self).applied() == old(self).applied().push(
                SettingView::MutualTlsCa(mutual_tlsca@),
            ),
            final(self).session_id == old(self).session_id,
    {
        apply(&mut self.settings, Setting::MutualTlsCa(mutual_tlsca));
    }

    /// The certificate and key, in PEM format, with which the edge
    /// terminates TLS.
    pub fn termination(&mut self, cert_pem: Vec<u8>, key_pem: Vec<u8>)
        ensures
            final(self).applied() == old(self).applied().push(
                SettingView::Termination(cert_pem@, key_pem@),
            ),
            final(self).session_id == old(self).session_id,
    {
        apply(&mut self.settings, Setting::Termination(cert_pem, key_pem));
    }
}

} // verus!
