//! The uninstall operation: ergonomic request, its translation into the
//! wire request, and the classification of the wire response.

use vstd::prelude::*;

use crate::bridge::{UninstallRequest, UninstallResponse};
use crate::env::{Env, bridge_env_wf, env_flattened, env_is_default};
use crate::flatten::{DEFAULT_TIMEOUT_SECS, flat_opt, flatten_timeout, with_default};

verus! {

/// Caller-facing uninstall request.
#[derive(Clone, Debug)]
pub struct Uninstall {
    pub release_name: String,
    pub ns: String,
    pub disable_hooks: bool,
    pub dry_run: bool,
    pub ignore_not_found: bool,
    pub keep_history: bool,
    pub wait: bool,
    pub deletion_propagation: String,
    /// Timeout in seconds; when unset, the translation materializes
    /// [`DEFAULT_TIMEOUT_SECS`].
    pub timeout: Option<i64>,
    pub description: String,
    pub env: Env,
}

/// The wire request `r` is exactly the translation of the ergonomic request
/// `req`: plain fields pass through unchanged, the timeout default is
/// materialized, and the embedded descriptor is flattened field by field.
pub open spec fn uninstall_translated(req: Uninstall, r: UninstallRequest) -> bool {
    &&& r.release_name == req.release_name
    &&& r.ns == req.ns
    &&& r.disable_hooks == req.disable_hooks
    &&& r.dry_run == req.dry_run
    &&& r.ignore_not_found == req.ignore_not_found
    &&& r.keep_history == req.keep_history
    &&& r.wait == req.wait
    &&& r.deletion_propagation == req.deletion_propagation
    &&& r.timeout@ == flat_opt(with_default(req.timeout, DEFAULT_TIMEOUT_SECS))
    &&& r.description == req.description
    &&& env_flattened(req.env, r.env)
}

impl Uninstall {
    /// Translates the ergonomic request into its wire form. Total and
    /// lossless: an unset timeout becomes the one-element sequence holding
    /// the default, a set timeout is kept exactly.
    pub fn into_request(self) -> (r: UninstallRequest)
        ensures
            uninstall_translated(self, r),
            self.timeout is None ==> r.timeout@ == seq![DEFAULT_TIMEOUT_SECS],
            self.timeout matches Option::Some(t) ==> r.timeout@ == seq![t],
            r.timeout@.len() == 1,
            bridge_env_wf(r.env),
    {
        UninstallRequest {
            release_name: self.release_name,
            ns: self.ns,
            disable_hooks: self.disable_hooks,
            dry_run: self.dry_run,
            ignore_not_found: self.ignore_not_found,
            keep_history: self.keep_history,
            wait: self.wait,
            deletion_propagation: self.deletion_propagation,
            timeout: flatten_timeout(self.timeout),
            description: self.description,
            env: self.env.into_bridge(),
        }
    }
}

impl Default for Uninstall {
    /// The default request: every string empty, every flag off, and the
    /// timeout unset (so that translation materializes the default).
    fn default() -> (r: Self)
        ensures
            r.release_name@ == Seq::<char>::empty(),
            r.ns@ == Seq::<char>::empty(),
            !r.disable_hooks,
            !r.dry_run,
            !r.ignore_not_found,
            !r.keep_history,
            !r.wait,
            r.deletion_propagation@ == Seq::<char>::empty(),
            r.timeout is None,
            r.description@ == Seq::<char>::empty(),
            env_is_default(r.env),
    {
        Uninstall {
            release_name: String::new(),
            ns: String::new(),
            disable_hooks: false,
            dry_run: false,
            ignore_not_found: false,
            keep_history: false,
            wait: false,
            deletion_propagation: String::new(),
            timeout: Option::None,
            description: String::new(),
            env: Env::default(),
        }
    }
}

/// Typed failure of the uninstall operation.
#[derive(Clone, Debug, PartialEq, Eq)]
pub enum UninstallError {
    Uninstall {
        /// Partial or diagnostic output accompanying the failure; present
        /// exactly when the response's payload was a non-empty string.
        response: Option<String>,
        /// The primary error message: the first element of the response's
        /// error sequence.
        err: String,
    },
}

/// Classifies a wire response: an empty error sequence means success and
/// the payload is returned verbatim (an empty string included); a non-empty
/// error sequence means failure, carrying the first error message and the
/// payload as a diagnostic exactly when it is non-empty. Elements of the
/// error sequence past the first are discarded.
pub fn classify_uninstall(res: UninstallResponse) -> (r: Result<String, UninstallError>)
    ensures
        res.err@.len() == 0 ==> (r matches Ok(d) && d == res.data),
        res.err@.len() > 0 ==> (r matches Err(UninstallError::Uninstall { response, err })
            && err == res.err@[0]
            && response == (if res.data@.len() == 0 { Option::<String>::None } else {
                Option::Some(res.data)
            })
            && (response is Some <==> res.data@.len() > 0)),
{
    if res.err.len() > 0 {
        let err = res.err[0].clone();
        let response = if res.data.as_str().is_empty() {
            Option::None
        } else {
            Option::Some(res.data)
        };
        Err(UninstallError::Uninstall { response, err })
    } else {
        Ok(res.data)
    }
}

} // verus!
