//! Per-request capabilities: derived boolean properties of one request
//! (is the caller an administrator? is the transport encrypted?) that are
//! computed on first access, cached for the request's lifetime, and
//! returned without recomputation afterwards.  The cache is a value
//! threaded through the request's handlers; it never outlives a request.

use vstd::prelude::*;
use crate::auth::{BasicAuth, Config, spec_auth_admin, AuthResult};

verus! {

/// The encryption-status header could not be understood.
#[derive(Clone, Copy, Debug, PartialEq, Eq, Structural)]
pub struct IsTlsError;

/// The caller is an administrator: the admin-tier check accepts.
pub open spec fn spec_is_admin(config: Config, creds: Option<&BasicAuth>) -> bool {
    spec_auth_admin(config, creds) is Authenticated
}

/// The byte string `on`.
pub open spec fn on_bytes() -> Seq<u8> {
    seq![111u8, 110u8]
}

/// What the encryption-status header means.  The header is a
/// termination signal set by the proxy in front of the service: absent or
/// a single empty value means plain transport, a single value `on` means
/// encrypted, and anything else is an error.
pub open spec fn spec_eval_tls(header: Option<&Vec<Vec<u8>>>) -> Result<bool, IsTlsError> {
    match header {
        None => Ok(false),
        Some(values) => if values@.len() != 1 {
            Err(IsTlsError)
        } else if values@[0]@ == on_bytes() {
            Ok(true)
        } else if values@[0]@.len() == 0 {
            Ok(false)
        } else {
            Err(IsTlsError)
        },
    }
}

/// Marker for the is-administrator capability.
pub struct IsAdmin;

impl IsAdmin {
    /// Evaluates the is-administrator capability.  Never fails: malformed
    /// or missing credentials simply mean the caller is not an
    /// administrator.
    pub fn eval(config: &Config, creds: Option<&BasicAuth>) -> (r: Result<bool, ()>)
        ensures
            r == Ok::<bool, ()>(spec_is_admin(*config, creds)),
    {
        let checked = crate::auth::auth_admin(config, creds);
        Ok(match checked {
            AuthResult::Authenticated => true,
            AuthResult::Unauthenticated(_) => false,
        })
    }
}

/// Marker for the transport-encryption capability.
pub struct IsTls;

impl IsTls {
    /// Evaluates the transport-encryption capability from the raw values
    /// of the encryption-status header.
    pub fn eval(header: Option<&Vec<Vec<u8>>>) -> (r: Result<bool, IsTlsError>)
        ensures
            r == spec_eval_tls(header),
    {
        match header {
            None => Ok(false),
            Some(values) => {
                if values.len() != 1 {
                    Err(IsTlsError)
                } else {
                    let v = &values[0];
                    if v.len() == 2 && v[0] == 111u8 && v[1] == 110u8 {
                        proof {
                            assert(v@ =~= on_bytes());
                        }
                        Ok(true)
                    } else if v.len() == 0 {
                        proof {
                            assert(v@ != on_bytes());
                        }
                        Ok(false)
                    } else {
                        proof {
                            assert(v@ != on_bytes());
                        }
                        Err(IsTlsError)
                    }
                }
            },
        }
    }
}

/// The per-request capability cache.  Each capability is evaluated at
/// most once per request: the first read stores the outcome, later reads
/// return it unchanged.  The evaluation counters exist so that callers
/// can observe how often the underlying predicates ran.
pub struct RequestCapabilities {
    pub admin_cache: Option<bool>,
    pub encrypted_cache: Option<Result<bool, IsTlsError>>,
    pub admin_evals: u64,
    pub encrypted_evals: u64,
}

impl RequestCapabilities {
    /// Each capability has been evaluated exactly as often as its cache
    /// holds an outcome: never more than once.
    pub open spec fn counts_ok(self) -> bool {
        &&& self.admin_evals == (if self.admin_cache is Some {
            1int
        } else {
            0int
        })
        &&& self.encrypted_evals == (if self.encrypted_cache is Some {
            1int
        } else {
            0int
        })
    }

    /// A fresh cache, created when a request arrives: nothing evaluated.
    pub fn new() -> (c: Self)
        ensures
            c.admin_cache is None,
            c.encrypted_cache is None,
            c.admin_evals == 0,
            c.encrypted_evals == 0,
            c.counts_ok(),
    {
        RequestCapabilities {
            admin_cache: None,
            encrypted_cache: None,
            admin_evals: 0,
            encrypted_evals: 0,
        }
    }

    /// Reads the is-administrator capability, evaluating it only when no
    /// earlier read of this request has.
    pub fn is_admin(&mut self, config: &Config, creds: Option<&BasicAuth>) -> (b: bool)
        requires
            old(self).admin_cache matches Some(x) ==> x == spec_is_admin(*config, creds),
            old(self).admin_evals < u64::MAX,
        ensures
            b == spec_is_admin(*config, creds),
            final(self).admin_cache == Some(b),
            final(self).admin_evals == (if old(self).admin_cache is Some {
                old(self).admin_evals as int
            } else {
                old(self).admin_evals + 1
            }),
            final(self).encrypted_cache == old(self).encrypted_cache,
            final(self).encrypted_evals == old(self).encrypted_evals,
            old(self).counts_ok() ==> final(self).counts_ok(),
    {
        match self.admin_cache {
            Some(b) => b,
            None => {
                let b = match IsAdmin::eval(config, creds) {
                    Ok(b) => b,
                    Err(_) => false,
                };
                self.admin_evals = self.admin_evals + 1;
                self.admin_cache = Some(b);
                b
            },
        }
    }

    /// Reads the transport-encryption capability, evaluating it only when
    /// no earlier read of this request has.  A malformed header is an
    /// error on every read.
    pub fn is_encrypted(&mut self, header: Option<&Vec<Vec<u8>>>) -> (r: Result<bool, IsTlsError>)
        requires
            old(self).encrypted_cache matches Some(x) ==> x == spec_eval_tls(header),
            old(self).encrypted_evals < u64::MAX,
        ensures
            r == spec_eval_tls(header),
            final(self).encrypted_cache == Some(r),
            final(self).encrypted_evals == (if old(self).encrypted_cache is Some {
                old(self).encrypted_evals as int
            } else {
                old(self).encrypted_evals + 1
            }),
            final(self).admin_cache == old(self).admin_cache,
            final(self).admin_evals == old(self).admin_evals,
            old(self).counts_ok() ==> final(self).counts_ok(),
    {
        match self.encrypted_cache {
            Some(r) => r,
            None => {
                let r = IsTls::eval(header);
                self.encrypted_evals = self.encrypted_evals + 1;
                self.encrypted_cache = Some(r);
                r
            },
        }
    }
}

/// However many times a request's handlers read a capability, the
/// underlying predicate has run at most once for it: the counters of a
/// cache that started fresh and was only touched by the two read
/// operations never pass one.
pub proof fn lemma_capability_evaluated_at_most_once(c: RequestCapabilities)
    requires
        c.counts_ok(),
    ensures
        c.admin_evals <= 1,
        c.encrypted_evals <= 1,
{
}

} // verus!
