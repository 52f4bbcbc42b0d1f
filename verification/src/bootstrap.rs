use vstd::prelude::*;
use crate::config::ServerConfig;

verus! {

/// How the listener is started: TLS with the configured certificate material,
/// or plaintext. Decided once at startup and fixed for the process lifetime.
pub enum ListenerMode {
    /// Both TLS files were found: serve TLS only, from these paths.
    Tls { cert_path: String, key_path: String },
    /// At least one TLS file is missing: serve plaintext only.
    Plain,
}

/// Decides the listener mode from whether the configured certificate and key
/// files exist: TLS exactly when both exist, plaintext otherwise. The two
/// modes are mutually exclusive by construction.
pub fn select_listener_mode(
    config: &ServerConfig,
    cert_exists: bool,
    key_exists: bool,
) -> (m: ListenerMode)
    ensures
        cert_exists && key_exists ==> (m matches ListenerMode::Tls { cert_path, key_path }
            && cert_path@ == config.cert_path@ && key_path@ == config.key_path@),
        !(cert_exists && key_exists) ==> m is Plain,
{
    if cert_exists && key_exists {
        ListenerMode::Tls {
            cert_path: config.cert_path.clone(),
            key_path: config.key_path.clone(),
        }
    } else {
        ListenerMode::Plain
    }
}

/// The address the listener binds to: every interface, on the configured port.
pub fn bind_address(port: &str) -> (r: String)
    ensures
        r@ == "0.0.0.0:"@ + port@,
{
    let mut r = String::from_str("0.0.0.0:");
    r.append(port);
    r
}

} // verus!
