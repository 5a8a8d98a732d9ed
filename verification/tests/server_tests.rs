use ndl::server::acme_directory;
use ndl::server::listen_port;
use ndl::server::select_tls_mode;
use ndl::server::StartupError;
use ndl::server::TlsMode;
use ndl::server::TlsSettings;
use ndl::server::SHUTDOWN_GRACE_SECS;

fn settings() -> TlsSettings {
    TlsSettings {
        acme_domain: None,
        acme_email: None,
        acme_dir: None,
        acme_staging: false,
        tls_cert: None,
        tls_key: None,
    }
}

#[test]
fn port_defaults_to_8080() {
    assert_eq!(listen_port(None), 8080);
    assert_eq!(listen_port(Some(443)), 443);
    assert_eq!(SHUTDOWN_GRACE_SECS, 30);
}

#[test]
fn acme_comes_first() {
    let mut s = settings();
    s.acme_domain = Some("relay.example".to_string());
    s.acme_email = Some("ops@relay.example".to_string());
    s.tls_cert = Some("/c".to_string());
    s.tls_key = Some("/k".to_string());
    match select_tls_mode(s).unwrap() {
        TlsMode::Acme { domain, contact, cache_dir, directory_url } => {
            assert_eq!(domain, "relay.example");
            assert_eq!(contact, "mailto:ops@relay.example");
            assert_eq!(cache_dir, "/var/lib/ndld/acme");
            assert_eq!(directory_url, "https://acme-v02.api.letsencrypt.org/directory");
        }
        other => panic!("unexpected {:?}", other),
    }
}

#[test]
fn acme_staging_and_cache_dir() {
    let mut s = settings();
    s.acme_domain = Some("d".to_string());
    s.acme_email = Some("e".to_string());
    s.acme_dir = Some("/tmp/acme".to_string());
    s.acme_staging = true;
    match select_tls_mode(s).unwrap() {
        TlsMode::Acme { cache_dir, directory_url, .. } => {
            assert_eq!(cache_dir, "/tmp/acme");
            assert_eq!(directory_url, acme_directory(true));
            assert_eq!(directory_url, "https://acme-staging-v02.api.letsencrypt.org/directory");
        }
        other => panic!("unexpected {:?}", other),
    }
}

#[test]
fn acme_needs_a_contact() {
    let mut s = settings();
    s.acme_domain = Some("d".to_string());
    assert_eq!(select_tls_mode(s).unwrap_err(), StartupError::AcmeEmailMissing);
    assert_eq!(
        StartupError::AcmeEmailMissing.message(),
        "NDLD_ACME_EMAIL must be set when using ACME"
    );
}

#[test]
fn manual_tls_needs_both_files() {
    let mut s = settings();
    s.tls_cert = Some("/c".to_string());
    assert_eq!(select_tls_mode(s).unwrap_err(), StartupError::TlsPairIncomplete);
    let mut s = settings();
    s.tls_key = Some("/k".to_string());
    assert_eq!(select_tls_mode(s).unwrap_err(), StartupError::TlsPairIncomplete);
    let mut s = settings();
    s.tls_cert = Some("/c".to_string());
    s.tls_key = Some("/k".to_string());
    match select_tls_mode(s).unwrap() {
        TlsMode::Manual { cert_path, key_path } => {
            assert_eq!(cert_path, "/c");
            assert_eq!(key_path, "/k");
        }
        other => panic!("unexpected {:?}", other),
    }
    assert_eq!(
        StartupError::TlsPairIncomplete.message(),
        "Both NDLD_TLS_CERT and NDLD_TLS_KEY must be set for TLS, or neither"
    );
}

#[test]
fn nothing_configured_is_plain_http() {
    assert!(matches!(select_tls_mode(settings()).unwrap(), TlsMode::Plain));
}
