//! The settings that a host hands over to open a listener in one call.

use vstd::prelude::*;

verus! {

/// Everything a host may set to open a session and one listener on it.
/// Each field is absent until the host sets it.
#[derive(Clone, Debug, PartialEq, Eq)]
pub struct Config {
    /// Port, network address, or named pipe. Defaults to 80.
    pub addr: Option<String>,
    /// Synonym for `basic_auth`.
    pub auth: Option<Vec<String>>,
    /// The authtoken that the session authenticates with.
    pub authtoken: Option<String>,
    /// Take the authtoken from the environment.
    pub authtoken_from_env: Option<bool>,
    /// Credentials for basic authentication, user name and password separated by a colon.
    pub basic_auth: Option<Vec<String>>,
    /// Unused; a warning is given.
    pub bin_path: Option<String>,
    /// Turn on gzip compression of HTTP responses.
    pub compression: Option<bool>,
    /// Unused; a warning is given.
    pub config_path: Option<String>,
    /// The certificate for TLS termination at the edge, in PEM format.
    pub crt: Option<String>,
    /// The domain to request for the endpoint.
    pub domain: Option<String>,
    /// What the listener forwards to, as shown in the dashboard.
    pub forwards_to: Option<String>,
    /// Unused; a warning is given.
    pub host_header: Option<String>,
    /// The host to forward to; used only when `addr` is absent.
    pub host: Option<String>,
    /// Synonym for `domain`.
    pub hostname: Option<String>,
    /// Unused; a warning is given.
    pub inspect: Option<String>,
    /// CIDR ranges that may connect.
    pub allow_cidr: Option<Vec<String>>,
    /// CIDR ranges that may not connect.
    pub deny_cidr: Option<Vec<String>>,
    /// Regular expressions for User-Agents that are allowed.
    pub allow_user_agent: Option<Vec<String>>,
    /// Regular expressions for User-Agents that are denied.
    pub deny_user_agent: Option<Vec<String>>,
    /// The key for TLS termination at the edge, in PEM format.
    pub key: Option<String>,
    /// Labels of a labeled listener, label and value separated by a colon.
    pub labels: Option<Vec<String>>,
    /// Listener-specific opaque metadata.
    pub metadata: Option<String>,
    /// Certificate authorities for client authentication at the edge.
    pub mutual_tls_cas: Option<Vec<String>>,
    /// Unused; a warning is given.
    pub name: Option<String>,
    /// OAuth: domains to allow.
    pub oauth_allow_domains: Option<Vec<String>>,
    /// OAuth: email addresses to allow.
    pub oauth_allow_emails: Option<Vec<String>>,
    /// OAuth: scopes.
    pub oauth_scopes: Option<Vec<String>>,
    /// OAuth: the provider.
    pub oauth_provider: Option<String>,
    /// OAuth: the client id.
    pub oauth_client_id: Option<String>,
    /// OAuth: the client secret.
    pub oauth_client_secret: Option<String>,
    /// OpenID Connect: the client id.
    pub oidc_client_id: Option<String>,
    /// OpenID Connect: the client secret.
    pub oidc_client_secret: Option<String>,
    /// OpenID Connect: scopes.
    pub oidc_scopes: Option<Vec<String>>,
    /// OpenID Connect: the issuer URL.
    pub oidc_issuer_url: Option<String>,
    /// OpenID Connect: domains to allow.
    pub oidc_allow_domains: Option<Vec<String>>,
    /// OpenID Connect: email addresses to allow.
    pub oidc_allow_emails: Option<Vec<String>>,
    /// Whether log events are handed to the host.
    pub on_log_event: Option<bool>,
    /// Whether changes of connection status are handed to the host.
    pub on_status_change: Option<bool>,
    /// The port to forward to; used only when `addr` is absent.
    pub port: Option<u32>,
    /// The kind of listener: http, tcp, tls or labeled. Defaults to http.
    pub proto: Option<String>,
    /// The version of the PROXY protocol: `1`, `2`, or empty for none.
    pub proxy_proto: Option<String>,
    /// Headers to add to requests, name and value separated by a colon.
    pub request_header_add: Option<Vec<String>>,
    /// Headers to remove from requests.
    pub request_header_remove: Option<Vec<String>>,
    /// Headers to add to responses, name and value separated by a colon.
    pub response_header_add: Option<Vec<String>>,
    /// Headers to remove from responses.
    pub response_header_remove: Option<Vec<String>>,
    /// Unused; a warning is given.
    pub region: Option<String>,
    /// The TCP address to request for the endpoint.
    pub remote_addr: Option<String>,
    /// The schemes of the endpoint; the last one counts.
    pub schemes: Option<Vec<String>>,
    /// Opaque metadata of the session.
    pub session_metadata: Option<String>,
    /// Unused; a warning is given.
    pub subdomain: Option<String>,
    /// Unused; a warning is given.
    pub terminate_at: Option<String>,
    /// Webhook verification: the provider.
    pub verify_webhook_provider: Option<String>,
    /// Webhook verification: the secret.
    pub verify_webhook_secret: Option<String>,
    /// Unused; a warning is given.
    pub web_addr: Option<String>,
    /// Convert incoming websocket connections to TCP-like streams.
    pub websocket_tcp_converter: Option<bool>,
}

impl Default for Config {
    /// A configuration in which nothing is set.
    fn default() -> (config: Config)
        ensures
            config == (Config {
                addr: None,
                auth: None,
                authtoken: None,
                authtoken_from_env: None,
                basic_auth: None,
                bin_path: None,
                compression: None,
                config_path: None,
                crt: None,
                domain: None,
                forwards_to: None,
                host_header: None,
                host: None,
                hostname: None,
                inspect: None,
                allow_cidr: None,
                deny_cidr: None,
                allow_user_agent: None,
                deny_user_agent: None,
                key: None,
                labels: None,
                metadata: None,
                mutual_tls_cas: None,
                name: None,
                oauth_allow_domains: None,
                oauth_allow_emails: None,
                oauth_scopes: None,
                oauth_provider: None,
                oauth_client_id: None,
                oauth_client_secret: None,
                oidc_client_id: None,
                oidc_client_secret: None,
                oidc_scopes: None,
                oidc_issuer_url: None,
                oidc_allow_domains: None,
                oidc_allow_emails: None,
                on_log_event: None,
                on_status_change: None,
                port: None,
                proto: None,
                proxy_proto: None,
                request_header_add: None,
                request_header_remove: None,
                response_header_add: None,
                response_header_remove: None,
                region: None,
                remote_addr: None,
                schemes: None,
                session_metadata: None,
                subdomain: None,
                terminate_at: None,
                verify_webhook_provider: None,
                verify_webhook_secret: None,
                web_addr: None,
                websocket_tcp_converter: None,
            }),
    {
        Config {
            addr: None,
            auth: None,
            authtoken: None,
            authtoken_from_env: None,
            basic_auth: None,
            bin_path: None,
            compression: None,
            config_path: None,
            crt: None,
            domain: None,
            forwards_to: None,
            host_header: None,
            host: None,
            hostname: None,
            inspect: None,
            allow_cidr: None,
            deny_cidr: None,
            allow_user_agent: None,
            deny_user_agent: None,
            key: None,
            labels: None,
            metadata: None,
            mutual_tls_cas: None,
            name: None,
            oauth_allow_domains: None,
            oauth_allow_emails: None,
            oauth_scopes: None,
            oauth_provider: None,
            oauth_client_id: None,
            oauth_client_secret: None,
            oidc_client_id: None,
            oidc_client_secret: None,
            oidc_scopes: None,
            oidc_issuer_url: None,
            oidc_allow_domains: None,
            oidc_allow_emails: None,
            on_log_event: None,
            on_status_change: None,
            port: None,
            proto: None,
            proxy_proto: None,
            request_header_add: None,
            request_header_remove: None,
            response_header_add: None,
            response_header_remove: None,
            region: None,
            remote_addr: None,
            schemes: None,
            session_metadata: None,
            subdomain: None,
            terminate_at: None,
            verify_webhook_provider: None,
            verify_webhook_secret: None,
            web_addr: None,
            websocket_tcp_converter: None,
        }
    }
}

} // verus!
