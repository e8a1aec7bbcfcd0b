use wiw_boerse::auth::{
    auth_admin, auth_user, check_admin_auth, check_auth, AuthReason, AuthResult, BasicAuth, Config,
    ConfigMy,
};

fn test_config() -> Config {
    Config {
        username: "user".to_string(),
        password: "pass".to_string(),
        admin_name: "admin".to_string(),
        admin_pass: "secret".to_string(),
        mysql: ConfigMy { password: "dbpass".to_string() },
    }
}

fn creds(username: &str, password: Option<&str>) -> BasicAuth {
    BasicAuth {
        username: username.to_string(),
        password: password.map(|p| p.to_string()),
    }
}

#[test]
fn user_pair_accepted_at_base_tier() {
    let config = test_config();
    let c = creds("user", Some("pass"));
    assert_eq!(auth_user(&config, Some(&c)), AuthResult::Authenticated);
    assert!(check_auth(&config, Some(&c)).is_ok());
}

#[test]
fn admin_pair_accepted_at_base_tier() {
    let config = test_config();
    let c = creds("admin", Some("secret"));
    assert_eq!(auth_user(&config, Some(&c)), AuthResult::Authenticated);
    assert!(check_auth(&config, Some(&c)).is_ok());
}

#[test]
fn wrong_password_rejected_at_base_tier() {
    let config = test_config();
    let c = creds("user", Some("wrong"));
    assert_eq!(
        auth_user(&config, Some(&c)),
        AuthResult::Unauthenticated(AuthReason::BadCredentials)
    );
    let denial = check_auth(&config, Some(&c)).unwrap_err();
    assert_eq!(denial.status, 401);
    assert_eq!(denial.message, "Benutzername oder Passwort falsch.");
    assert!(denial.challenge.is_none());
}

#[test]
fn crossed_pairs_rejected() {
    let config = test_config();
    let c = creds("user", Some("secret"));
    assert_eq!(
        auth_user(&config, Some(&c)),
        AuthResult::Unauthenticated(AuthReason::BadCredentials)
    );
    let c2 = creds("admin", Some("pass"));
    assert_eq!(
        auth_user(&config, Some(&c2)),
        AuthResult::Unauthenticated(AuthReason::BadCredentials)
    );
}

#[test]
fn credential_match_is_case_sensitive() {
    let config = test_config();
    let c = creds("User", Some("pass"));
    assert_eq!(
        auth_user(&config, Some(&c)),
        AuthResult::Unauthenticated(AuthReason::BadCredentials)
    );
}

#[test]
fn missing_password_distinguished() {
    let config = test_config();
    let c = creds("user", None);
    assert_eq!(
        auth_user(&config, Some(&c)),
        AuthResult::Unauthenticated(AuthReason::MissingPassword)
    );
    let denial = check_auth(&config, Some(&c)).unwrap_err();
    assert_eq!(denial.status, 401);
    assert_eq!(denial.message, "Kein Passwort gefunden.");
    assert_eq!(
        denial.challenge.as_deref(),
        Some("Basic realm=\"Anmeldung fuer die WiW-Boerse\"")
    );
}

#[test]
fn missing_credentials_challenged_with_base_realm() {
    let config = test_config();
    let denial = check_auth(&config, None).unwrap_err();
    assert_eq!(denial.status, 401);
    assert_eq!(denial.message, "");
    assert_eq!(
        denial.challenge.as_deref(),
        Some("Basic realm=\"Anmeldung fuer die WiW-Boerse\"")
    );
}

#[test]
fn admin_tier_rejects_user_pair() {
    let config = test_config();
    let c = creds("user", Some("pass"));
    assert_eq!(
        auth_admin(&config, Some(&c)),
        AuthResult::Unauthenticated(AuthReason::BadCredentials)
    );
    let denial = check_admin_auth(&config, Some(&c)).unwrap_err();
    assert_eq!(denial.status, 401);
    assert_eq!(
        denial.message,
        "Zugriff nur für die Administration. Benutzername oder Passwort falsch."
    );
    assert!(denial.challenge.is_none());
}

#[test]
fn admin_tier_accepts_admin_pair() {
    let config = test_config();
    let c = creds("admin", Some("secret"));
    assert_eq!(auth_admin(&config, Some(&c)), AuthResult::Authenticated);
    assert!(check_admin_auth(&config, Some(&c)).is_ok());
}

#[test]
fn admin_tier_challenge_names_admin_realm() {
    let config = test_config();
    let denial = check_admin_auth(&config, None).unwrap_err();
    assert_eq!(denial.status, 401);
    assert_eq!(
        denial.challenge.as_deref(),
        Some("Basic realm=\"Anmeldung fuer die WiW-Boerse (nur fuer die Administration)\"")
    );
}
