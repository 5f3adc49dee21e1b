use vstd::prelude::*;

use crate::errors::ServerError;

verus! {

#[verifier::external_type_specification]
#[verifier::external_body]
pub struct ExServerConfig(rustls::ServerConfig);

#[verifier::external_type_specification]
#[verifier::external_body]
pub struct ExRustlsError(rustls::Error);

#[verifier::external_type_specification]
#[verifier::external_body]
pub struct ExPemItem(rustls_pemfile::Item);

/// One section of a PEM file, as the key loader tells them apart.
#[derive(Debug)]
pub enum PemItem {
    /// A DER-encoded x509 certificate.
    Certificate { der: Vec<u8> },
    /// A PKCS#8 private key.
    Pkcs8Key { der: Vec<u8> },
    /// A PKCS#1 (traditional RSA) private key.
    RsaKey { der: Vec<u8> },
    /// Any other section kind: not usable as a server key.
    Other,
}

/// The DER certificates that the PEM reader extracts from a certificate
/// file's bytes, in order; `None` when the bytes are not readable PEM.
pub uninterp spec fn pem_certificates(bytes: Seq<u8>) -> Option<Seq<Seq<u8>>>;

/// The PEM sections that the PEM reader extracts from a key file's
/// bytes, in order; `None` when the bytes are not readable PEM.
pub uninterp spec fn pem_sections(bytes: Seq<u8>) -> Option<Seq<PemItem>>;

/// Relies on `rustls_pemfile::certs`: the DER contents of the
/// CERTIFICATE sections of the bytes, in order, or an error for
/// unreadable PEM.
#[verifier::external_body]
fn read_pem_certificates(bytes: &Vec<u8>) -> (r: Option<Vec<Vec<u8>>>)
    ensures
        r is Some <==> pem_certificates(bytes@) is Some,
        r is Some ==> r->0.deep_view() == pem_certificates(bytes@)->0,
{
    rustls_pemfile::certs(&mut bytes.as_slice()).ok()
}

/// Relies on `rustls_pemfile::read_all`: every PEM section of the bytes,
/// in order, or an error for unreadable PEM.
#[verifier::external_body]
fn read_pem_sections(bytes: &Vec<u8>) -> (r: Option<Vec<PemItem>>)
    ensures
        r is Some <==> pem_sections(bytes@) is Some,
        r is Some ==> r->0@ == pem_sections(bytes@)->0,
{
    match rustls_pemfile::read_all(&mut bytes.as_slice()) {
        Ok(items) => Some(items.into_iter().map(pem_item_of).collect()),
        Err(_) => None,
    }
}

/// Relies on the shape of `rustls_pemfile::Item`: each section kind the
/// key loader reacts to is carried over with its DER bytes.
#[verifier::external_body]
fn pem_item_of(item: rustls_pemfile::Item) -> PemItem {
    match item {
        rustls_pemfile::Item::X509Certificate(der) => PemItem::Certificate { der },
        rustls_pemfile::Item::PKCS8Key(der) => PemItem::Pkcs8Key { der },
        rustls_pemfile::Item::RSAKey(der) => PemItem::RsaKey { der },
        _ => PemItem::Other,
    }
}

/// The first usable private key among the PEM sections: the first
/// PKCS#8 or traditional RSA key block wins.
pub open spec fn first_usable_key(items: Seq<PemItem>) -> Option<Seq<u8>>
    decreases items.len(),
{
    if items.len() == 0 {
        Option::None
    } else {
        match items[0] {
            PemItem::Pkcs8Key { der } => Option::Some(der@),
            PemItem::RsaKey { der } => Option::Some(der@),
            _ => first_usable_key(items.drop_first()),
        }
    }
}

/// Picks the first usable private key out of a key file's PEM sections.
pub fn select_private_key(items: &Vec<PemItem>) -> (r: Option<Vec<u8>>)
    ensures
        r is Some <==> first_usable_key(items@) is Some,
        r is Some ==> r->0@ == first_usable_key(items@)->0,
{
    let mut i: usize = 0;
    proof {
        assert(items@.skip(0) =~= items@);
    }
    while i < items.len()
        invariant
            i <= items@.len(),
            first_usable_key(items@) == first_usable_key(items@.skip(i as int)),
        decreases items@.len() - i,
    {
        proof {
            assert(items@.skip(i as int).drop_first() =~= items@.skip(i as int + 1));
            assert(items@.skip(i as int)[0] == items@[i as int]);
        }
        match &items[i] {
            PemItem::Pkcs8Key { der } => {
                return Some(der.clone());
            },
            PemItem::RsaKey { der } => {
                return Some(der.clone());
            },
            _ => {},
        }
        i = i + 1;
    }
    None
}

/// A compiled, ready-to-use server-TLS configuration: an immutable
/// certificate-chain-plus-key bundle.  At any instant exactly one
/// material is current; handshakes already in flight keep the one they
/// started with.
pub struct TlsMaterial {
    /// The server configuration compiled from the chain and key.
    pub config: rustls::ServerConfig,
}

/// Whether rustls's configuration builder accepts the given DER
/// certificate chain and DER private key: its verdict is a pure function
/// of those bytes (the key must parse as a usable signing key; the chain
/// is not validated at build time).
pub uninterp spec fn tls_material_builds(certs: Seq<Seq<u8>>, key: Seq<u8>) -> bool;

/// Relies on rustls's configuration builder (safe defaults, no client
/// certificate required, a single certificate chain and key): whether
/// the chain and key compile into a configuration depends on their bytes
/// alone.
#[verifier::external_body]
fn build_server_config(cert_chain: Vec<Vec<u8>>, key_der: Vec<u8>) -> (r: Result<
    rustls::ServerConfig,
    rustls::Error,
>)
    ensures
        r is Ok <==> tls_material_builds(cert_chain.deep_view(), key_der@),
{
    rustls::ServerConfig::builder().with_safe_defaults().with_no_client_auth().with_single_cert(
        cert_chain.into_iter().map(rustls::Certificate).collect(),
        rustls::PrivateKey(key_der),
    )
}

/// Maps the configuration builder's verdict into the library's error
/// taxonomy: any rejection of the material is a `TlsLoad` failure.
pub fn finish_tls_build(build: Result<rustls::ServerConfig, rustls::Error>) -> (r: Result<
    TlsMaterial,
    ServerError,
>)
    ensures
        build is Ok <==> r is Ok,
        build matches Ok(config) ==> r matches Ok(m) && m.config == config,
        r is Err ==> r->Err_0 == ServerError::TlsLoad,
{
    match build {
        Result::Ok(config) => Result::Ok(TlsMaterial { config }),
        Result::Err(_) => Result::Err(ServerError::TlsLoad),
    }
}

/// Loads TLS material from the bytes of a PEM certificate-chain file and
/// a PEM private-key file.  It succeeds exactly when both files are
/// readable PEM, the key file holds a usable key block, and the builder
/// accepts the chain with the first such block; every load failure is a
/// `TlsLoad` error.
pub fn load_tls_config(cert_pem: &Vec<u8>, key_pem: &Vec<u8>) -> (r: Result<
    TlsMaterial,
    ServerError,
>)
    ensures
        r is Ok <==> pem_certificates(cert_pem@) is Some && (pem_sections(key_pem@) matches Some(
            items,
        ) && (first_usable_key(items) matches Some(key) && tls_material_builds(
            pem_certificates(cert_pem@)->0,
            key,
        ))),
        r is Err ==> r->Err_0 == ServerError::TlsLoad,
{
    let certs = match read_pem_certificates(cert_pem) {
        Option::Some(certs) => certs,
        Option::None => {
            return Result::Err(ServerError::TlsLoad);
        },
    };
    let sections = match read_pem_sections(key_pem) {
        Option::Some(sections) => sections,
        Option::None => {
            return Result::Err(ServerError::TlsLoad);
        },
    };
    let key = match select_private_key(&sections) {
        Option::Some(key) => key,
        Option::None => {
            return Result::Err(ServerError::TlsLoad);
        },
    };
    finish_tls_build(build_server_config(certs, key))
}

/// The refresh rule: a successful reload becomes the current material;
/// after a failed reload the previous material stays active — a refresh
/// failure is never fatal to the running server.
pub fn next_tls_material(current: TlsMaterial, reloaded: Result<TlsMaterial, ServerError>) -> (r:
    TlsMaterial)
    ensures
        reloaded matches Ok(m) ==> r == m,
        reloaded is Err ==> r == current,
{
    match reloaded {
        Result::Ok(m) => m,
        Result::Err(_) => current,
    }
}

} // verus!
