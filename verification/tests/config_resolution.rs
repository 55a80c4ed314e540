use base64::Engine;
use kubeclient::config::{
    AuthConfig, AuthInfo, ClientConfig, Cluster, Config, Context, FileRead, KubeconfigParseError,
    NamedAuthInfo, NamedCluster, NamedContext, Preferences,
};

const CA_PEM: &str = "-----BEGIN CERTIFICATE-----\naGVsbG8=\n-----END CERTIFICATE-----\n";

fn auth_info_with_token(token: Option<&str>) -> AuthInfo {
    AuthInfo {
        client_certificate: None,
        client_certificate_data: None,
        client_key: None,
        client_key_data: None,
        token: token.map(|t| t.to_string()),
        token_file: None,
        impersonate: None,
        impersonate_groups: None,
        username: None,
        password: None,
    }
}

fn cluster(server: &str, ca_path: Option<&str>, ca_data: Option<&str>) -> Cluster {
    Cluster {
        server: server.to_string(),
        insecure_skip_tls_verify: None,
        certificate_authority: ca_path.map(|p| p.to_string()),
        certificate_authority_data: ca_data.map(|d| d.to_string()),
    }
}

fn two_context_config() -> Config {
    Config {
        kind: "Config".to_string(),
        api_version: "v1".to_string(),
        preferences: Preferences { colors: None },
        clusters: vec![
            NamedCluster { name: "cluster-a".to_string(), cluster: cluster("https://a:6443", None, None) },
            NamedCluster { name: "cluster-b".to_string(), cluster: cluster("https://b:6443", None, None) },
        ],
        users: vec![
            NamedAuthInfo { name: "user-a".to_string(), user: auth_info_with_token(Some("token-a")) },
            NamedAuthInfo { name: "user-b".to_string(), user: auth_info_with_token(Some("token-b")) },
        ],
        contexts: vec![
            NamedContext {
                name: "a".to_string(),
                context: Context {
                    cluster: "cluster-a".to_string(),
                    user: "user-a".to_string(),
                    namespace: None,
                },
            },
            NamedContext {
                name: "b".to_string(),
                context: Context {
                    cluster: "cluster-b".to_string(),
                    user: "user-b".to_string(),
                    namespace: Some("team".to_string()),
                },
            },
        ],
        current_context: "a".to_string(),
    }
}

#[test]
fn override_selects_the_named_context_not_current() {
    let config = two_context_config();
    let resolved = match config.resolve(Some("b".to_string())) {
        Ok(r) => r,
        Err(_) => panic!("expected resolution to succeed"),
    };
    assert_eq!(resolved.cluster.server, "https://b:6443");
    assert_eq!(resolved.user.token.as_deref(), Some("token-b"));
    assert_eq!(resolved.context.cluster, "cluster-b");
}

#[test]
fn without_override_the_current_context_wins() {
    let config = two_context_config();
    let resolved = match config.resolve(None) {
        Ok(r) => r,
        Err(_) => panic!("expected resolution to succeed"),
    };
    assert_eq!(resolved.cluster.server, "https://a:6443");
    assert_eq!(resolved.user.token.as_deref(), Some("token-a"));
}

#[test]
fn unknown_context_name_is_missing_context() {
    let config = two_context_config();
    let err = match config.resolve(Some("nope".to_string())) {
        Ok(_) => panic!("expected resolution to fail"),
        Err(e) => e,
    };
    assert!(matches!(err, KubeconfigParseError::MissingContext(name) if name == "nope"));
}

#[test]
fn dangling_cluster_reference_is_missing_cluster() {
    let mut config = two_context_config();
    config.contexts[1].context.cluster = "ghost".to_string();
    let err = match config.resolve(Some("b".to_string())) {
        Ok(_) => panic!("expected resolution to fail"),
        Err(e) => e,
    };
    assert!(matches!(err, KubeconfigParseError::MissingCluster(name) if name == "ghost"));
}

#[test]
fn dangling_user_reference_is_missing_user() {
    let mut config = two_context_config();
    config.contexts[0].context.user = "ghost".to_string();
    let err = match config.resolve(None) {
        Ok(_) => panic!("expected resolution to fail"),
        Err(e) => e,
    };
    assert!(matches!(err, KubeconfigParseError::MissingUser(name) if name == "ghost"));
}

#[test]
fn first_entry_with_a_name_wins() {
    let mut config = two_context_config();
    config.clusters.push(NamedCluster {
        name: "cluster-a".to_string(),
        cluster: cluster("https://shadow:6443", None, None),
    });
    let resolved = match config.resolve(None) {
        Ok(r) => r,
        Err(_) => panic!("expected resolution to succeed"),
    };
    assert_eq!(resolved.cluster.server, "https://a:6443");
}

#[test]
fn user_token_becomes_token_auth() {
    let user = auth_info_with_token(Some("s3cr3t"));
    let auth = AuthConfig::from_kubeconfig_user(&user);
    assert!(matches!(auth, AuthConfig::Token(t) if t == "s3cr3t"));
}

#[test]
fn token_auth_describes_itself() {
    let auth = AuthConfig::Token("s3cr3t".to_string());
    assert_eq!(auth.description(), "Token authentication");
}

#[test]
fn cluster_without_ca_resolves_to_plain_external_config() {
    let config = two_context_config();
    let resolved = match config.resolve(None) {
        Ok(r) => r,
        Err(_) => panic!("expected resolution to succeed"),
    };
    let client_config = match ClientConfig::from_kubeconfig(resolved, None) {
        Ok(c) => c,
        Err(_) => panic!("expected assembly to succeed"),
    };
    match client_config {
        ClientConfig::External { api_url, auth_info, ca } => {
            assert_eq!(api_url, "https://a:6443");
            assert!(matches!(auth_info, AuthConfig::Token(t) if t == "token-a"));
            assert!(ca.is_none());
        }
        ClientConfig::InCluster => panic!("expected an external configuration"),
    }
}

#[test]
fn named_ca_file_that_was_not_read_is_missing_file() {
    let mut config = two_context_config();
    config.clusters[0].cluster = cluster("https://a:6443", Some("/etc/ca.crt"), None);
    let resolved = match config.resolve(None) {
        Ok(r) => r,
        Err(_) => panic!("expected resolution to succeed"),
    };
    let err = match ClientConfig::from_kubeconfig(resolved, None) {
        Ok(_) => panic!("expected assembly to fail"),
        Err(e) => e,
    };
    assert!(matches!(err, KubeconfigParseError::MissingFile(path) if path == "/etc/ca.crt"));
}

#[test]
fn unreadable_ca_file_is_missing_file() {
    let mut config = two_context_config();
    config.clusters[0].cluster = cluster("https://a:6443", Some("/etc/ca.crt"), None);
    let resolved = match config.resolve(None) {
        Ok(r) => r,
        Err(_) => panic!("expected resolution to succeed"),
    };
    let err = match ClientConfig::from_kubeconfig(
        resolved,
        Some(FileRead::Unreadable("permission denied".to_string())),
    ) {
        Ok(_) => panic!("expected assembly to fail"),
        Err(e) => e,
    };
    assert!(matches!(err, KubeconfigParseError::MissingFile(path) if path == "/etc/ca.crt"));
}

#[test]
fn inline_ca_data_that_is_not_base64_is_invalid_certificate() {
    let mut config = two_context_config();
    config.clusters[0].cluster = cluster("https://a:6443", None, Some("!!! not base64 !!!"));
    let resolved = match config.resolve(None) {
        Ok(r) => r,
        Err(_) => panic!("expected resolution to succeed"),
    };
    let err = match ClientConfig::from_kubeconfig(resolved, None) {
        Ok(_) => panic!("expected assembly to fail"),
        Err(e) => e,
    };
    assert!(
        matches!(err, KubeconfigParseError::InvalidCertificate(what) if what == "certificate-authority-data")
    );
}

#[test]
fn empty_config_has_no_context() {
    let config = Config {
        kind: "Config".to_string(),
        api_version: "v1".to_string(),
        preferences: Preferences { colors: None },
        clusters: vec![],
        users: vec![],
        contexts: vec![],
        current_context: "a".to_string(),
    };
    let err = match config.resolve(None) {
        Ok(_) => panic!("expected resolution to fail"),
        Err(e) => e,
    };
    assert!(matches!(err, KubeconfigParseError::MissingContext(name) if name == "a"));
}

#[test]
fn ca_file_without_a_certificate_is_invalid_certificate() {
    let mut config = two_context_config();
    config.clusters[0].cluster = cluster("https://a:6443", Some("/etc/ca.crt"), None);
    let resolved = match config.resolve(None) {
        Ok(r) => r,
        Err(_) => panic!("expected resolution to succeed"),
    };
    let err = match ClientConfig::from_kubeconfig(
        resolved,
        Some(FileRead::Contents(b"not a certificate".to_vec())),
    ) {
        Ok(_) => panic!("expected assembly to fail"),
        Err(e) => e,
    };
    assert!(matches!(err, KubeconfigParseError::InvalidCertificate(path) if path == "/etc/ca.crt"));
}

#[test]
fn ca_file_with_a_certificate_resolves_to_external_config() {
    let mut config = two_context_config();
    config.clusters[0].cluster = cluster("https://a:6443", Some("/etc/ca.crt"), None);
    let resolved = match config.resolve(None) {
        Ok(r) => r,
        Err(_) => panic!("expected resolution to succeed"),
    };
    let client_config = match ClientConfig::from_kubeconfig(
        resolved,
        Some(FileRead::Contents(CA_PEM.as_bytes().to_vec())),
    ) {
        Ok(c) => c,
        Err(_) => panic!("expected assembly to succeed"),
    };
    match client_config {
        ClientConfig::External { api_url, ca, .. } => {
            assert_eq!(api_url, "https://a:6443");
            assert!(ca.is_some());
        }
        ClientConfig::InCluster => panic!("expected an external configuration"),
    }
}

#[test]
fn inline_ca_data_with_a_certificate_resolves_to_external_config() {
    let data = base64::engine::general_purpose::STANDARD.encode(CA_PEM.as_bytes());
    let mut config = two_context_config();
    config.clusters[0].cluster = cluster("https://a:6443", None, Some(&data));
    let resolved = match config.resolve(None) {
        Ok(r) => r,
        Err(_) => panic!("expected resolution to succeed"),
    };
    let client_config = match ClientConfig::from_kubeconfig(resolved, None) {
        Ok(c) => c,
        Err(_) => panic!("expected assembly to succeed"),
    };
    match client_config {
        ClientConfig::External { ca, .. } => assert!(ca.is_some()),
        ClientConfig::InCluster => panic!("expected an external configuration"),
    }
}

#[test]
fn inline_ca_data_without_a_certificate_is_invalid_certificate() {
    let data = base64::engine::general_purpose::STANDARD.encode(b"not a certificate");
    let mut config = two_context_config();
    config.clusters[0].cluster = cluster("https://a:6443", None, Some(&data));
    let resolved = match config.resolve(None) {
        Ok(r) => r,
        Err(_) => panic!("expected resolution to succeed"),
    };
    let err = match ClientConfig::from_kubeconfig(resolved, None) {
        Ok(_) => panic!("expected assembly to fail"),
        Err(e) => e,
    };
    assert!(
        matches!(err, KubeconfigParseError::InvalidCertificate(what) if what == "certificate-authority-data")
    );
}
