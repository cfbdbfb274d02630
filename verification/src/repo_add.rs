//! The repo-add operation: ergonomic request, its translation into the wire
//! request, and the classification of the wire response. Repo-add is
//! effect-only: a successful response carries no payload.

use vstd::prelude::*;

use crate::bridge::{AddRequest, AddResponse};
use crate::env::{Env, bridge_env_wf, env_flattened, env_is_default};

verus! {

/// Caller-facing repo-add request.
#[derive(Clone, Debug)]
pub struct RepoAdd {
    pub name: String,
    pub url: String,
    pub username: String,
    pub password: String,
    pub password_from_stdin_opt: bool,
    pub pass_credentials_all: bool,
    pub force_update: bool,
    pub allow_deprecated_repos: bool,
    pub cert_file: String,
    pub key_file: String,
    pub ca_file: String,
    pub insecure_skip_tls_sverify: bool,
    pub env: Env,
}

/// The wire request `r` is exactly the translation of the ergonomic request
/// `req`: every plain field passes through unchanged and the embedded
/// descriptor is flattened field by field.
pub open spec fn repo_add_translated(req: RepoAdd, r: AddRequest) -> bool {
    &&& r.name == req.name
    &&& r.url == req.url
    &&& r.username == req.username
    &&& r.password == req.password
    &&& r.password_from_stdin_opt == req.password_from_stdin_opt
    &&& r.pass_credentials_all == req.pass_credentials_all
    &&& r.force_update == req.force_update
    &&& r.allow_deprecated_repos == req.allow_deprecated_repos
    &&& r.cert_file == req.cert_file
    &&& r.key_file == req.key_file
    &&& r.ca_file == req.ca_file
    &&& r.insecure_skip_tls_sverify == req.insecure_skip_tls_sverify
    &&& env_flattened(req.env, r.env)
}

impl RepoAdd {
    /// Translates the ergonomic request into its wire form. Total and
    /// lossless; no field of this request has a default to materialize.
    pub fn into_request(self) -> (r: AddRequest)
        ensures
            repo_add_translated(self, r),
            bridge_env_wf(r.env),
    {
        AddRequest {
            name: self.name,
            url: self.url,
            username: self.username,
            password: self.password,
            password_from_stdin_opt: self.password_from_stdin_opt,
            pass_credentials_all: self.pass_credentials_all,
            force_update: self.force_update,
            allow_deprecated_repos: self.allow_deprecated_repos,
            cert_file: self.cert_file,
            key_file: self.key_file,
            ca_file: self.ca_file,
            insecure_skip_tls_sverify: self.insecure_skip_tls_sverify,
            env: self.env.into_bridge(),
        }
    }
}

impl Default for RepoAdd {
    /// The default request: every string empty, every flag off, and the
    /// default descriptor.
    fn default() -> (r: Self)
        ensures
            r.name@ == Seq::<char>::empty(),
            r.url@ == Seq::<char>::empty(),
            r.username@ == Seq::<char>::empty(),
            r.password@ == Seq::<char>::empty(),
            !r.password_from_stdin_opt,
            !r.pass_credentials_all,
            !r.force_update,
            !r.allow_deprecated_repos,
            r.cert_file@ == Seq::<char>::empty(),
            r.key_file@ == Seq::<char>::empty(),
            r.ca_file@ == Seq::<char>::empty(),
            !r.insecure_skip_tls_sverify,
            env_is_default(r.env),
    {
        RepoAdd {
            name: String::new(),
            url: String::new(),
            username: String::new(),
            password: String::new(),
            password_from_stdin_opt: false,
            pass_credentials_all: false,
            force_update: false,
            allow_deprecated_repos: false,
            cert_file: String::new(),
            key_file: String::new(),
            ca_file: String::new(),
            insecure_skip_tls_sverify: false,
            env: Env::default(),
        }
    }
}

/// Typed failure of the repo-add operation.
#[derive(Clone, Debug, PartialEq, Eq)]
pub enum RepoAddError {
    RepoAdd {
        /// Always absent: the repo-add response schema carries no payload
        /// that could accompany the failure.
        response: Option<String>,
        /// The primary error message: the first element of the response's
        /// error sequence.
        err: String,
    },
}

/// Classifies a wire response: an empty error sequence means success (the
/// operation is effect-only, so success carries no value); a non-empty
/// error sequence means failure, carrying the first error message and no
/// diagnostic, since the response schema has no payload field. Elements of
/// the error sequence past the first are discarded.
pub fn classify_repo_add(res: AddResponse) -> (r: Result<(), RepoAddError>)
    ensures
        res.err@.len() == 0 ==> r is Ok,
        res.err@.len() > 0 ==> (r matches Err(RepoAddError::RepoAdd { response, err })
            && err == res.err@[0]
            && response is None),
{
    if res.err.len() > 0 {
        let err = res.err[0].clone();
        Err(RepoAddError::RepoAdd { response: Option::None, err })
    } else {
        Ok(())
    }
}

} // verus!
