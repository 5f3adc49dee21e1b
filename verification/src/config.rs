use vstd::prelude::*;

verus! {

/// Runtime settings handed to the core once at startup.
///
/// The core never re-reads them, except that the certificate and key paths
/// are read again on each periodic TLS reload.  Where the values come from
/// (a file, the environment) is a collaborator's concern; the core receives
/// them as plain values.
pub struct Settings {
    /// Address the listener binds to.
    pub address: String,
    /// Path of the PEM certificate chain file.
    pub cert_path: String,
    /// Path of the PEM private key file.
    pub key_path: String,
    /// Root directory of the served pages.
    pub pages_dir: String,
    /// Seconds between two attempts to reload the TLS material.
    pub tls_reload_interval_secs: u64,
}

impl Settings {
    /// Builds the settings record from already-read plain values.
    pub fn new(
        address: String,
        cert_path: String,
        key_path: String,
        pages_dir: String,
        tls_reload_interval_secs: u64,
    ) -> (r: Settings)
        ensures
            r.address@ == address@,
            r.cert_path@ == cert_path@,
            r.key_path@ == key_path@,
            r.pages_dir@ == pages_dir@,
            r.tls_reload_interval_secs == tls_reload_interval_secs,
    {
        Settings { address, cert_path, key_path, pages_dir, tls_reload_interval_secs }
    }
}

} // verus!
