use vstd::prelude::*;

verus! {

/// Default port string used when the PORT environment value is absent.
pub open spec fn default_port() -> Seq<char> {
    "8443"@
}

/// Default certificate path used when the TLS_CERT environment value is absent.
pub open spec fn default_cert_path() -> Seq<char> {
    "/certs/cert.pem"@
}

/// Default key path used when the TLS_KEY environment value is absent.
pub open spec fn default_key_path() -> Seq<char> {
    "/certs/key.pem"@
}

/// Settings resolved once at process start and never mutated afterwards.
#[derive(Clone, Debug)]
pub struct ServerConfig {
    /// Port the listener binds to, kept as the raw string so that an
    /// unparsable value surfaces only when the bind is attempted.
    pub port: String,
    /// Whether the service reports itself as running in dev mode.
    pub dev_mode: bool,
    /// Path of the TLS certificate chain file.
    pub cert_path: String,
    /// Path of the TLS private key file.
    pub key_path: String,
}

/// Builds the configuration from the raw environment values, substituting a
/// fixed default for every absent value; it never fails. `dev_mode` is set
/// exactly when the DEV_MODE value is the string "true".
pub fn resolve_config(
    port_var: Option<String>,
    dev_mode_var: Option<String>,
    cert_var: Option<String>,
    key_var: Option<String>,
) -> (c: ServerConfig)
    ensures
        c.port@ == (match port_var {
            Some(p) => p@,
            None => default_port(),
        }),
        c.dev_mode <==> (dev_mode_var matches Some(d) && d@ == "true"@),
        c.cert_path@ == (match cert_var {
            Some(p) => p@,
            None => default_cert_path(),
        }),
        c.key_path@ == (match key_var {
            Some(p) => p@,
            None => default_key_path(),
        }),
{
    let port = match port_var {
        Some(p) => p,
        None => String::from_str("8443"),
    };
    let dev_mode = match dev_mode_var {
        Some(d) => d == String::from_str("true"),
        None => false,
    };
    let cert_path = match cert_var {
        Some(p) => p,
        None => String::from_str("/certs/cert.pem"),
    };
    let key_path = match key_var {
        Some(p) => p,
        None => String::from_str("/certs/key.pem"),
    };
    ServerConfig { port, dev_mode, cert_path, key_path }
}

} // verus!
