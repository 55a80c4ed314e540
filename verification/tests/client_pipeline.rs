use kubeclient::api::apps_v1::StatefulSetUpdateStrategy;
use kubeclient::api::secret::SecretData;
use kubeclient::client::{
    classify_response, incluster_base_url, incluster_config, status_is_success,
    authorization_header, ClientInitError, EnvLookup, KubeClient, Method, RequestError,
};
use kubeclient::config::{AuthConfig, ClientConfig, FileRead};

// A well-formed PEM certificate section; the bytes inside are not
// validated as DER until the transport is built.
const CA_PEM: &str = "-----BEGIN CERTIFICATE-----\naGVsbG8=\n-----END CERTIFICATE-----\n";

#[test]
fn only_the_2xx_range_is_success() {
    assert!(status_is_success(200));
    assert!(status_is_success(201));
    assert!(status_is_success(299));
    assert!(!status_is_success(199));
    assert!(!status_is_success(300));
    assert!(!status_is_success(301));
    assert!(!status_is_success(404));
    assert!(!status_is_success(500));
}

#[test]
fn transport_failures_classify_as_transport_error() {
    // A connection to a local port nobody listens on fails before any
    // response exists.
    let client = reqwest::blocking::Client::new();
    let result = client.get("http://127.0.0.1:9/").send();
    assert!(result.is_err());
    let classified = classify_response(result);
    match classified {
        Err(RequestError::TransportError(_)) => {}
        _ => panic!("expected a transport error"),
    }
}

#[test]
fn request_error_descriptions_are_stable() {
    let client = reqwest::blocking::Client::new();
    let error = client.get("http://127.0.0.1:9/").send().unwrap_err();
    assert_eq!(
        RequestError::TransportError(error).description(),
        "There was an error during the HTTP request"
    );
    assert_eq!(
        RequestError::MiscError.description(),
        "Unknown, miscellaneous error (shouldn't happen)"
    );
}

#[test]
fn bearer_tokens_emit_the_exact_header() {
    let header = authorization_header(&AuthConfig::Token("abc123".to_string()));
    assert_eq!(header, "Bearer abc123");
    let untrimmed = authorization_header(&AuthConfig::Token(" spaced ".to_string()));
    assert_eq!(untrimmed, "Bearer  spaced ");
}

#[test]
fn missing_host_short_circuits_the_bootstrap() {
    let r = incluster_base_url(
        EnvLookup::Absent("environment variable not found".to_string()),
        EnvLookup::Present("443".to_string()),
    );
    match r {
        Err(ClientInitError::EnvVarError(name, cause)) => {
            assert_eq!(name, "KUBERNETES_SERVICE_HOST");
            assert_eq!(cause, "environment variable not found");
        }
        _ => panic!("expected the host lookup to fail first"),
    }
}

#[test]
fn missing_port_fails_after_the_host() {
    let r = incluster_base_url(
        EnvLookup::Present("10.0.0.1".to_string()),
        EnvLookup::Absent("environment variable not found".to_string()),
    );
    match r {
        Err(ClientInitError::EnvVarError(name, _)) => {
            assert_eq!(name, "KUBERNETES_SERVICE_PORT");
        }
        _ => panic!("expected the port lookup to fail"),
    }
}

#[test]
fn present_host_and_port_become_the_base_url() {
    let r = incluster_base_url(
        EnvLookup::Present("::1".to_string()),
        EnvLookup::Present("6443".to_string()),
    );
    match r {
        Ok(url) => assert_eq!(url, "https://[::1]:6443"),
        Err(_) => panic!("expected a base URL"),
    }
}

#[test]
fn unreadable_token_file_is_an_io_error() {
    let r = incluster_config(
        "https://10.0.0.1:443".to_string(),
        FileRead::Unreadable("no such file".to_string()),
        FileRead::Contents(CA_PEM.as_bytes().to_vec()),
    );
    assert!(matches!(r, Err(ClientInitError::IoError(cause)) if cause == "no such file"));
}

#[test]
fn in_cluster_settings_become_an_external_config() {
    let r = incluster_config(
        "https://10.0.0.1:443".to_string(),
        FileRead::Contents(b"mounted-token".to_vec()),
        FileRead::Contents(CA_PEM.as_bytes().to_vec()),
    );
    let config = match r {
        Ok(c) => c,
        Err(_) => panic!("expected an external configuration"),
    };
    match config {
        ClientConfig::External { api_url, auth_info, ca } => {
            assert_eq!(api_url, "https://10.0.0.1:443");
            assert!(matches!(auth_info, AuthConfig::Token(t) if t == "mounted-token"));
            assert!(ca.is_some());
        }
        ClientConfig::InCluster => panic!("expected an external configuration"),
    }
}

#[test]
fn token_bytes_decode_lossily() {
    let r = incluster_config(
        "https://10.0.0.1:443".to_string(),
        FileRead::Contents(vec![0xff, b't']),
        FileRead::Contents(CA_PEM.as_bytes().to_vec()),
    );
    let config = match r {
        Ok(c) => c,
        Err(_) => panic!("expected an external configuration"),
    };
    match config {
        ClientConfig::External { auth_info, .. } => {
            assert!(matches!(auth_info, AuthConfig::Token(t) if t == "\u{fffd}t"));
        }
        ClientConfig::InCluster => panic!("expected an external configuration"),
    }
}

#[test]
fn request_plans_carry_url_auth_and_patch_content_type() {
    let config = ClientConfig::External {
        api_url: "https://api:6443".to_string(),
        auth_info: AuthConfig::Token("tok".to_string()),
        ca: None,
    };
    let client = match KubeClient::new(config) {
        Ok(c) => c,
        Err(_) => panic!("expected the client to build"),
    };
    let plan = client.request_plan(Method::Patch, "/api/v1/namespaces/ns/pods/x");
    assert_eq!(plan.url, "https://api:6443/api/v1/namespaces/ns/pods/x");
    assert_eq!(plan.authorization, "Bearer tok");
    assert_eq!(plan.method, Method::Patch);
    assert_eq!(plan.content_type, Some("application/strategic-merge-patch+json"));

    let get = client.request_plan(Method::Get, "/api/v1/pods");
    assert_eq!(get.content_type, None);
    assert_eq!(get.url, "https://api:6443/api/v1/pods");
}

#[test]
fn secret_data_round_trips_through_base64() {
    let secret = SecretData(b"hello".to_vec());
    let encoded = secret.to_base64();
    assert_eq!(encoded, "aGVsbG8=");
    let decoded = SecretData::from_base64(&encoded).unwrap();
    assert_eq!(decoded.0, b"hello".to_vec());
    assert!(SecretData::from_base64("!!! not base64 !!!").is_none());
}

#[test]
fn stateful_set_update_strategy_defaults_to_rolling_update() {
    let strategy = StatefulSetUpdateStrategy::default();
    assert_eq!(strategy.strategy_type, "RollingUpdate");
    assert!(strategy.rolling_update.is_none());
}


#[test]
fn garbage_ca_bytes_are_an_invalid_certificate() {
    let r = incluster_config(
        "https://10.0.0.1:443".to_string(),
        FileRead::Contents(b"tok".to_vec()),
        FileRead::Contents(b"not a certificate".to_vec()),
    );
    match r {
        Err(ClientInitError::InvalidCert(cause)) => {
            assert_eq!(cause, "the CA certificate data does not hold a PEM certificate");
        }
        _ => panic!("expected the CA bytes to be rejected"),
    }
}
