//! Authentication predicates and the access-control gates built on them.
//! Two credential pairs are configured: a shared user pair and an
//! administrator pair.  The base tier accepts either pair; the admin tier
//! accepts the administrator pair only.  A request that fails a gate is
//! answered with a denial carrying the status, the user-facing message,
//! and, when credentials were missing, a challenge naming the realm.

use vstd::prelude::*;
use vstd::string::StringExecFns;

verus! {

/// Connection parameters for the storage layer.
pub struct ConfigMy {
    pub password: String,
}

/// The process-wide configuration: the two credential pairs and the
/// storage parameters.  Loaded once at startup, read-only afterwards.
pub struct Config {
    pub username: String,
    pub password: String,
    pub admin_name: String,
    pub admin_pass: String,
    pub mysql: ConfigMy,
}

/// HTTP Basic credentials as they arrive with a request: a username and,
/// when the header carried one, a password.
pub struct BasicAuth {
    pub username: String,
    pub password: Option<String>,
}

/// Why a credential check did not accept.
#[derive(Clone, Copy, Debug, PartialEq, Eq, Structural)]
pub enum AuthReason {
    MissingCredentials,
    MissingPassword,
    BadCredentials,
}

/// The outcome of a credential check.
#[derive(Clone, Copy, Debug, PartialEq, Eq, Structural)]
pub enum AuthResult {
    Authenticated,
    Unauthenticated(AuthReason),
}

/// The supplied pair equals the configured user pair, byte for byte.
pub open spec fn user_pair_matches(config: Config, username: Seq<char>, password: Seq<char>) -> bool {
    username == config.username@ && password == config.password@
}

/// The supplied pair equals the configured administrator pair.
pub open spec fn admin_pair_matches(config: Config, username: Seq<char>, password: Seq<char>) -> bool {
    username == config.admin_name@ && password == config.admin_pass@
}

/// The base-tier check: accepts the user pair and the admin pair.
pub open spec fn spec_auth_user(config: Config, creds: Option<&BasicAuth>) -> AuthResult {
    match creds {
        None => AuthResult::Unauthenticated(AuthReason::MissingCredentials),
        Some(b) => match b.password {
            None => AuthResult::Unauthenticated(AuthReason::MissingPassword),
            Some(p) => if user_pair_matches(config, b.username@, p@) || admin_pair_matches(
                config,
                b.username@,
                p@,
            ) {
                AuthResult::Authenticated
            } else {
                AuthResult::Unauthenticated(AuthReason::BadCredentials)
            },
        },
    }
}

/// The admin-tier check: accepts the admin pair only.
pub open spec fn spec_auth_admin(config: Config, creds: Option<&BasicAuth>) -> AuthResult {
    match creds {
        None => AuthResult::Unauthenticated(AuthReason::MissingCredentials),
        Some(b) => match b.password {
            None => AuthResult::Unauthenticated(AuthReason::MissingPassword),
            Some(p) => if admin_pair_matches(config, b.username@, p@) {
                AuthResult::Authenticated
            } else {
                AuthResult::Unauthenticated(AuthReason::BadCredentials)
            },
        },
    }
}

/// Classifies a request against the base tier.  Accepts exactly when the
/// supplied pair equals the user pair or the admin pair.
pub fn auth_user(config: &Config, creds: Option<&BasicAuth>) -> (r: AuthResult)
    ensures
        r == spec_auth_user(*config, creds),
{
    match creds {
        None => AuthResult::Unauthenticated(AuthReason::MissingCredentials),
        Some(b) => match &b.password {
            None => AuthResult::Unauthenticated(AuthReason::MissingPassword),
            Some(p) => {
                let as_user = b.username == config.username && *p == config.password;
                let as_admin = b.username == config.admin_name && *p == config.admin_pass;
                if as_user || as_admin {
                    AuthResult::Authenticated
                } else {
                    AuthResult::Unauthenticated(AuthReason::BadCredentials)
                }
            },
        },
    }
}

/// Classifies a request against the admin tier.  Accepts exactly when the
/// supplied pair equals the admin pair.
pub fn auth_admin(config: &Config, creds: Option<&BasicAuth>) -> (r: AuthResult)
    ensures
        r == spec_auth_admin(*config, creds),
{
    match creds {
        None => AuthResult::Unauthenticated(AuthReason::MissingCredentials),
        Some(b) => match &b.password {
            None => AuthResult::Unauthenticated(AuthReason::MissingPassword),
            Some(p) => {
                if b.username == config.admin_name && *p == config.admin_pass {
                    AuthResult::Authenticated
                } else {
                    AuthResult::Unauthenticated(AuthReason::BadCredentials)
                }
            },
        },
    }
}

/// A refused request: the status to answer with, the user-facing message,
/// and, when credentials were missing, the challenge header value.
pub struct Denial {
    pub status: u16,
    pub message: String,
    pub challenge: Option<String>,
}

/// The challenge for the base tier.
pub open spec fn spec_user_realm() -> Seq<char> {
    "Basic realm=\"Anmeldung fuer die WiW-Boerse\""@
}

/// The challenge for the admin tier.
pub open spec fn spec_admin_realm() -> Seq<char> {
    "Basic realm=\"Anmeldung fuer die WiW-Boerse (nur fuer die Administration)\""@
}

/// The user-facing message for a base-tier refusal.
pub open spec fn spec_user_denial_message(reason: AuthReason) -> Seq<char> {
    match reason {
        AuthReason::MissingCredentials => Seq::empty(),
        AuthReason::MissingPassword => "Kein Passwort gefunden."@,
        AuthReason::BadCredentials => "Benutzername oder Passwort falsch."@,
    }
}

/// The user-facing message for an admin-tier refusal.
pub open spec fn spec_admin_denial_message(reason: AuthReason) -> Seq<char> {
    match reason {
        AuthReason::MissingCredentials => Seq::empty(),
        AuthReason::MissingPassword => "Kein Passwort gefunden."@,
        AuthReason::BadCredentials => "Zugriff nur für die Administration. Benutzername oder Passwort falsch."@,
    }
}

/// A challenge is sent exactly on the missing reasons.
pub open spec fn spec_challenge_on(reason: AuthReason, realm: Seq<char>) -> Option<Seq<char>> {
    match reason {
        AuthReason::MissingCredentials => Some(realm),
        AuthReason::MissingPassword => Some(realm),
        AuthReason::BadCredentials => None::<Seq<char>>,
    }
}

/// What the base-tier gate answers: nothing to an accepted request, and a
/// denial with status 401, the reason's message, and the base realm
/// challenge on the missing reasons otherwise.
pub open spec fn spec_check_auth(config: Config, creds: Option<&BasicAuth>, r: Result<
    (),
    Denial,
>) -> bool {
    match spec_auth_user(config, creds) {
        AuthResult::Authenticated => r is Ok,
        AuthResult::Unauthenticated(reason) => r matches Err(d) && d.status == 401 && d.message@
            == spec_user_denial_message(reason) && (match spec_challenge_on(
            reason,
            spec_user_realm(),
        ) {
            Some(c) => d.challenge matches Some(ch) && ch@ == c,
            None => d.challenge is None,
        }),
    }
}

/// What the admin-tier gate answers, with the admin realm and messages.
pub open spec fn spec_check_admin_auth(config: Config, creds: Option<&BasicAuth>, r: Result<
    (),
    Denial,
>) -> bool {
    match spec_auth_admin(config, creds) {
        AuthResult::Authenticated => r is Ok,
        AuthResult::Unauthenticated(reason) => r matches Err(d) && d.status == 401 && d.message@
            == spec_admin_denial_message(reason) && (match spec_challenge_on(
            reason,
            spec_admin_realm(),
        ) {
            Some(c) => d.challenge matches Some(ch) && ch@ == c,
            None => d.challenge is None,
        }),
    }
}

/// The base-tier gate, attached to every route: halts the request with a
/// 401 denial unless the supplied pair is the user pair or the admin pair.
pub fn check_auth(config: &Config, creds: Option<&BasicAuth>) -> (r: Result<(), Denial>)
    ensures
        spec_check_auth(*config, creds, r),
{
    match auth_user(config, creds) {
        AuthResult::Authenticated => Ok(()),
        AuthResult::Unauthenticated(reason) => {
            let message = match reason {
                AuthReason::MissingCredentials => String::new(),
                AuthReason::MissingPassword => String::from_str("Kein Passwort gefunden."),
                AuthReason::BadCredentials => String::from_str(
                    "Benutzername oder Passwort falsch.",
                ),
            };
            let challenge = match reason {
                AuthReason::BadCredentials => None,
                _ => Some(String::from_str("Basic realm=\"Anmeldung fuer die WiW-Boerse\"")),
            };
            Err(Denial { status: 401, message, challenge })
        },
    }
}

/// The admin-tier gate, attached to deletion and notice-authoring routes:
/// halts the request with a 401 denial unless the supplied pair is the
/// admin pair.
pub fn check_admin_auth(config: &Config, creds: Option<&BasicAuth>) -> (r: Result<(), Denial>)
    ensures
        spec_check_admin_auth(*config, creds, r),
{
    match auth_admin(config, creds) {
        AuthResult::Authenticated => Ok(()),
        AuthResult::Unauthenticated(reason) => {
            let message = match reason {
                AuthReason::MissingCredentials => String::new(),
                AuthReason::MissingPassword => String::from_str("Kein Passwort gefunden."),
                AuthReason::BadCredentials => String::from_str(
                    "Zugriff nur für die Administration. Benutzername oder Passwort falsch.",
                ),
            };
            let challenge = match reason {
                AuthReason::BadCredentials => None,
                _ => Some(
                    String::from_str(
                        "Basic realm=\"Anmeldung fuer die WiW-Boerse (nur fuer die Administration)\"",
                    ),
                ),
            };
            Err(Denial { status: 401, message, challenge })
        },
    }
}

} // verus!
