//! How the relay is brought up: the port it listens on, the way it
//! terminates TLS, and how long it waits for requests in flight when it is
//! told to stop.
//!
//! The way TLS is terminated is chosen once, from the configuration, before
//! the first request is served.

use vstd::prelude::*;
use vstd::string::*;

verus! {

/// The port the relay listens on where none is configured.
pub const DEFAULT_PORT: u16 = 8080;

/// Seconds the relay waits for requests in flight before it closes them.
pub const SHUTDOWN_GRACE_SECS: u64 = 30;

/// Where certificates are obtained for real.
pub const LETS_ENCRYPT_PRODUCTION: &'static str = "https://acme-v02.api.letsencrypt.org/directory";

/// Where certificates are obtained for trial.
pub const LETS_ENCRYPT_STAGING: &'static str =
    "https://acme-staging-v02.api.letsencrypt.org/directory";

/// Where obtained certificates are kept where no place is configured.
pub const DEFAULT_ACME_DIR: &'static str = "/var/lib/ndld/acme";

/// What the configuration says about TLS.
#[derive(Debug, Clone)]
pub struct TlsSettings {
    pub acme_domain: Option<String>,
    pub acme_email: Option<String>,
    pub acme_dir: Option<String>,
    pub acme_staging: bool,
    pub tls_cert: Option<String>,
    pub tls_key: Option<String>,
}

/// The way the relay terminates TLS.
#[derive(Debug, Clone)]
pub enum TlsMode {
    /// Certificates are obtained by ACME for `domain`.
    Acme { domain: String, contact: String, cache_dir: String, directory_url: &'static str },
    /// The certificate and key are read from these files.
    Manual { cert_path: String, key_path: String },
    /// No TLS: a proxy in front of the relay terminates it.
    Plain,
}

/// Why the relay cannot be brought up as configured.
#[derive(Debug, Clone, Copy, PartialEq, Eq, Structural)]
pub enum StartupError {
    /// ACME is asked for, but no contact address is given.
    AcmeEmailMissing,
    /// Of certificate and key only one is given.
    TlsPairIncomplete,
}

impl StartupError {
    /// The error as a line of text.
    pub fn message(&self) -> (text: &'static str)
        ensures
            text@ == match self {
                StartupError::AcmeEmailMissing => "NDLD_ACME_EMAIL must be set when using ACME"@,
                StartupError::TlsPairIncomplete => "Both NDLD_TLS_CERT and NDLD_TLS_KEY must be set for TLS, or neither"@,
            },
    {
        match self {
            StartupError::AcmeEmailMissing => "NDLD_ACME_EMAIL must be set when using ACME",
            StartupError::TlsPairIncomplete => "Both NDLD_TLS_CERT and NDLD_TLS_KEY must be set for TLS, or neither",
        }
    }
}

/// The ways of terminating TLS, by name.
#[derive(Debug, Clone, Copy, PartialEq, Eq, Structural)]
pub enum TlsKind {
    Acme,
    Manual,
    Plain,
}

/// Which way of terminating TLS the settings choose, or why they choose
/// none. ACME comes first, then a certificate and key from files, then no
/// TLS at all.
pub open spec fn chosen_mode(s: TlsSettings) -> Result<TlsKind, StartupError> {
    if s.acme_domain is Some {
        if s.acme_email is Some {
            Ok(TlsKind::Acme)
        } else {
            Err(StartupError::AcmeEmailMissing)
        }
    } else if s.tls_cert is Some && s.tls_key is Some {
        Ok(TlsKind::Manual)
    } else if s.tls_cert is None && s.tls_key is None {
        Ok(TlsKind::Plain)
    } else {
        Err(StartupError::TlsPairIncomplete)
    }
}

/// The port to listen on: the configured one, or [`DEFAULT_PORT`].
pub fn listen_port(configured: Option<u16>) -> (port: u16)
    ensures
        port == match configured {
            Some(p) => p,
            None => DEFAULT_PORT,
        },
{
    match configured {
        Some(p) => p,
        None => DEFAULT_PORT,
    }
}

/// The ACME directory to ask: the staging one for trial, else the
/// production one.
pub fn acme_directory(staging: bool) -> (url: &'static str)
    ensures
        url@ == if staging {
            LETS_ENCRYPT_STAGING@
        } else {
            LETS_ENCRYPT_PRODUCTION@
        },
{
    if staging {
        LETS_ENCRYPT_STAGING
    } else {
        LETS_ENCRYPT_PRODUCTION
    }
}

/// Chooses the way TLS is terminated.
///
/// With an ACME domain, ACME it is: the contact is `mailto:` and the
/// address, the cache is the configured directory or
/// [`DEFAULT_ACME_DIR`]; without a contact address that is an error. Else
/// with both a certificate and a key, these are used; with only one of
/// them that is an error. With neither, the relay serves plain HTTP.
pub fn select_tls_mode(settings: TlsSettings) -> (r: Result<TlsMode, StartupError>)
    ensures
        match chosen_mode(settings) {
            Ok(TlsKind::Acme) => r matches Ok(TlsMode::Acme { domain, contact, cache_dir, directory_url })
                && domain@ == settings.acme_domain->0@ && contact@ == "mailto:"@
                + settings.acme_email->0@ && cache_dir@ == (match settings.acme_dir {
                Some(dir) => dir@,
                None => DEFAULT_ACME_DIR@,
            }) && directory_url@ == (if settings.acme_staging {
                LETS_ENCRYPT_STAGING@
            } else {
                LETS_ENCRYPT_PRODUCTION@
            }),
            Ok(TlsKind::Manual) => r matches Ok(TlsMode::Manual { cert_path, key_path }) && cert_path@
                == settings.tls_cert->0@ && key_path@ == settings.tls_key->0@,
            Ok(TlsKind::Plain) => r matches Ok(TlsMode::Plain),
            Err(e) => r == Err::<TlsMode, StartupError>(e),
        },
{
    match settings.acme_domain {
        Some(domain) => match settings.acme_email {
            Some(email) => {
                let mut contact = String::from_str("mailto:");
                contact.append(email.as_str());
                let cache_dir = match settings.acme_dir {
                    Some(dir) => dir,
                    None => String::from_str(DEFAULT_ACME_DIR),
                };
                Ok(
                    TlsMode::Acme {
                        domain,
                        contact,
                        cache_dir,
                        directory_url: acme_directory(settings.acme_staging),
                    },
                )
            },
            None => Err(StartupError::AcmeEmailMissing),
        },
        None => match (settings.tls_cert, settings.tls_key) {
            (Some(cert_path), Some(key_path)) => Ok(TlsMode::Manual { cert_path, key_path }),
            (None, None) => Ok(TlsMode::Plain),
            _ => Err(StartupError::TlsPairIncomplete),
        },
    }
}

} // verus!
