//! The registry-login operation: ergonomic request, its translation into
//! the wire request, and the classification of the wire response.
//! Registry-login is effect-only: a successful response carries no payload.

use vstd::prelude::*;

use crate::bridge::{LoginRequest, LoginResponse};
use crate::env::{Env, bridge_env_wf, env_flattened, env_is_default};

verus! {

/// Caller-facing registry-login request.
#[derive(Clone, Debug)]
pub struct RegistryLogin {
    pub hostname: String,
    pub username: String,
    pub password: String,
    pub cert_file: String,
    pub key_file: String,
    pub ca_file: String,
    pub insecure: bool,
    pub plain_http: bool,
    pub env: Env,
}

/// The wire request `r` is exactly the translation of the ergonomic request
/// `req`: every plain field passes through unchanged and the embedded
/// descriptor is flattened field by field.
pub open spec fn registry_login_translated(req: RegistryLogin, r: LoginRequest) -> bool {
    &&& r.hostname == req.hostname
    &&& r.username == req.username
    &&& r.password == req.password
    &&& r.cert_file == req.cert_file
    &&& r.key_file == req.key_file
    &&& r.ca_file == req.ca_file
    &&& r.insecure == req.insecure
    &&& r.plain_http == req.plain_http
    &&& env_flattened(req.env, r.env)
}

impl RegistryLogin {
    /// Translates the ergonomic request into its wire form. Total and
    /// lossless; no field of this request has a default to materialize.
    pub fn into_request(self) -> (r: LoginRequest)
        ensures
            registry_login_translated(self, r),
            bridge_env_wf(r.env),
    {
        LoginRequest {
            hostname: self.hostname,
            username: self.username,
            password: self.password,
            cert_file: self.cert_file,
            key_file: self.key_file,
            ca_file: self.ca_file,
            insecure: self.insecure,
            plain_http: self.plain_http,
            env: self.env.into_bridge(),
        }
    }
}

impl Default for RegistryLogin {
    /// The default request: every string empty, every flag off, and the
    /// default descriptor.
    fn default() -> (r: Self)
        ensures
            r.hostname@ == Seq::<char>::empty(),
            r.username@ == Seq::<char>::empty(),
            r.password@ == Seq::<char>::empty(),
            r.cert_file@ == Seq::<char>::empty(),
            r.key_file@ == Seq::<char>::empty(),
            r.ca_file@ == Seq::<char>::empty(),
            !r.insecure,
            !r.plain_http,
            env_is_default(r.env),
    {
        RegistryLogin {
            hostname: String::new(),
            username: String::new(),
            password: String::new(),
            cert_file: String::new(),
            key_file: String::new(),
            ca_file: String::new(),
            insecure: false,
            plain_http: false,
            env: Env::default(),
        }
    }
}

/// Typed failure of the registry-login operation.
#[derive(Clone, Debug, PartialEq, Eq)]
pub enum RegistryLoginError {
    RegistryLogin {
        /// The primary error message: the first element of the response's
        /// error sequence.
        err: String,
    },
}

/// Classifies a wire response: an empty error sequence means success (the
/// operation is effect-only, so success carries no value); a non-empty
/// error sequence means failure, carrying the first error message.
/// Elements of the error sequence past the first are discarded.
pub fn classify_registry_login(res: LoginResponse) -> (r: Result<(), RegistryLoginError>)
    ensures
        res.err@.len() == 0 ==> r is Ok,
        res.err@.len() > 0 ==> (r matches Err(RegistryLoginError::RegistryLogin { err })
            && err == res.err@[0]),
{
    if res.err.len() > 0 {
        let err = res.err[0].clone();
        Err(RegistryLoginError::RegistryLogin { err })
    } else {
        Ok(())
    }
}

} // verus!
