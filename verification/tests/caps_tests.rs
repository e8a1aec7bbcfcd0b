use wiw_boerse::auth::{BasicAuth, Config, ConfigMy};
use wiw_boerse::caps::{IsAdmin, IsTls, IsTlsError, RequestCapabilities};

fn test_config() -> Config {
    Config {
        username: "user".to_string(),
        password: "pass".to_string(),
        admin_name: "admin".to_string(),
        admin_pass: "secret".to_string(),
        mysql: ConfigMy { password: "dbpass".to_string() },
    }
}

fn admin_creds() -> BasicAuth {
    BasicAuth {
        username: "admin".to_string(),
        password: Some("secret".to_string()),
    }
}

#[test]
fn is_admin_evaluated_at_most_once_for_many_reads() {
    let config = test_config();
    let creds = admin_creds();
    let mut caps = RequestCapabilities::new();
    assert_eq!(caps.admin_evals, 0);
    for _ in 0..5 {
        let b = caps.is_admin(&config, Some(&creds));
        assert!(b);
    }
    assert_eq!(caps.admin_evals, 1);
}

#[test]
fn is_encrypted_evaluated_at_most_once_for_many_reads() {
    let mut caps = RequestCapabilities::new();
    assert_eq!(caps.encrypted_evals, 0);
    for _ in 0..4 {
        let r = caps.is_encrypted(None);
        assert_eq!(r, Ok(false));
    }
    assert_eq!(caps.encrypted_evals, 1);
}

#[test]
fn capabilities_are_independent() {
    let config = test_config();
    let mut caps = RequestCapabilities::new();
    let b = caps.is_admin(&config, None);
    assert!(!b);
    assert_eq!(caps.admin_evals, 1);
    assert_eq!(caps.encrypted_evals, 0);
    let r = caps.is_encrypted(None);
    assert_eq!(r, Ok(false));
    assert_eq!(caps.admin_evals, 1);
    assert_eq!(caps.encrypted_evals, 1);
}

#[test]
fn is_admin_eval_never_fails() {
    let config = test_config();
    let bad = BasicAuth {
        username: "admin".to_string(),
        password: None,
    };
    assert_eq!(IsAdmin::eval(&config, Some(&bad)), Ok(false));
    assert_eq!(IsAdmin::eval(&config, None), Ok(false));
    let good = admin_creds();
    assert_eq!(IsAdmin::eval(&config, Some(&good)), Ok(true));
}

#[test]
fn tls_header_absent_means_plain() {
    assert_eq!(IsTls::eval(None), Ok(false));
}

#[test]
fn tls_header_on_means_encrypted() {
    let values: Vec<Vec<u8>> = vec![b"on".to_vec()];
    assert_eq!(IsTls::eval(Some(&values)), Ok(true));
}

#[test]
fn tls_header_empty_value_means_plain() {
    let values: Vec<Vec<u8>> = vec![Vec::new()];
    assert_eq!(IsTls::eval(Some(&values)), Ok(false));
}

#[test]
fn tls_header_garbage_is_an_error() {
    let values: Vec<Vec<u8>> = vec![b"yes".to_vec()];
    assert_eq!(IsTls::eval(Some(&values)), Err(IsTlsError));
    let values2: Vec<Vec<u8>> = vec![b"onn".to_vec()];
    assert_eq!(IsTls::eval(Some(&values2)), Err(IsTlsError));
}

#[test]
fn tls_header_multiple_values_are_an_error() {
    let values: Vec<Vec<u8>> = vec![b"on".to_vec(), b"on".to_vec()];
    assert_eq!(IsTls::eval(Some(&values)), Err(IsTlsError));
}

#[test]
fn tls_error_is_cached_like_a_value() {
    let values: Vec<Vec<u8>> = vec![b"bad".to_vec()];
    let mut caps = RequestCapabilities::new();
    for _ in 0..3 {
        let r = caps.is_encrypted(Some(&values));
        assert_eq!(r, Err(IsTlsError));
    }
    assert_eq!(caps.encrypted_evals, 1);
}
