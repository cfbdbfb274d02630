//! The install operation: ergonomic request, its translation into the wire
//! request, and the classification of the wire response.

use vstd::prelude::*;

use crate::bridge::{InstallRequest, InstallResponse};
use crate::env::{Env, bridge_env_wf, env_flattened, env_is_default};
use crate::flatten::{DEFAULT_TIMEOUT_SECS, flat_opt, flatten_opt_string, flatten_timeout,
    with_default};

verus! {

/// Caller-facing install request.
#[derive(Clone, Debug)]
pub struct Install {
    pub release_name: String,
    pub chart: String,
    pub version: String,
    pub ns: String,
    pub wait: bool,
    /// Timeout in seconds; when unset, the translation materializes
    /// [`DEFAULT_TIMEOUT_SECS`].
    pub timeout: Option<i64>,
    pub create_namespace: bool,
    /// Opaque values payload, passed through uninterpreted.
    pub values: Vec<u8>,
    pub dry_run: Option<String>,
    pub env: Env,
}

/// The wire request `r` is exactly the translation of the ergonomic request
/// `req`: plain fields pass through unchanged, optional scalars are
/// flattened, the timeout default is materialized, and the embedded
/// descriptor is flattened field by field.
pub open spec fn install_translated(req: Install, r: InstallRequest) -> bool {
    &&& r.release_name == req.release_name
    &&& r.chart == req.chart
    &&& r.version == req.version
    &&& r.ns == req.ns
    &&& r.wait == req.wait
    &&& r.timeout@ == flat_opt(with_default(req.timeout, DEFAULT_TIMEOUT_SECS))
    &&& r.create_namespace == req.create_namespace
    &&& r.values == req.values
    &&& r.dry_run.deep_view() == flat_opt(req.dry_run.deep_view())
    &&& env_flattened(req.env, r.env)
}

impl Install {
    /// Translates the ergonomic request into its wire form. Total and
    /// lossless: an unset timeout becomes the one-element sequence holding
    /// the default, a set timeout is kept exactly.
    pub fn into_request(self) -> (r: InstallRequest)
        ensures
            install_translated(self, r),
            self.timeout is None ==> r.timeout@ == seq![DEFAULT_TIMEOUT_SECS],
            self.timeout matches Option::Some(t) ==> r.timeout@ == seq![t],
            r.timeout@.len() == 1,
            r.dry_run.deep_view().len() <= 1,
            bridge_env_wf(r.env),
    {
        InstallRequest {
            release_name: self.release_name,
            chart: self.chart,
            version: self.version,
            ns: self.ns,
            wait: self.wait,
            timeout: flatten_timeout(self.timeout),
            create_namespace: self.create_namespace,
            values: self.values,
            dry_run: flatten_opt_string(self.dry_run),
            env: self.env.into_bridge(),
        }
    }
}

impl Default for Install {
    /// The default request: every string empty, every flag off, the values
    /// payload empty, the timeout unset (so that translation materializes
    /// the default), and the default descriptor.
    fn default() -> (r: Self)
        ensures
            r.release_name@ == Seq::<char>::empty(),
            r.chart@ == Seq::<char>::empty(),
            r.version@ == Seq::<char>::empty(),
            r.ns@ == Seq::<char>::empty(),
            !r.wait,
            r.timeout is None,
            !r.create_namespace,
            r.values@ == Seq::<u8>::empty(),
            r.dry_run is None,
            env_is_default(r.env),
    {
        Install {
            release_name: String::new(),
            chart: String::new(),
            version: String::new(),
            ns: String::new(),
            wait: false,
            timeout: Option::None,
            create_namespace: false,
            values: Vec::new(),
            dry_run: Option::None,
            env: Env::default(),
        }
    }
}

/// Typed failure of the install operation.
#[derive(Clone, Debug, PartialEq, Eq)]
pub enum InstallError {
    Install {
        /// Partial or diagnostic output accompanying the failure; present
        /// exactly when the response's payload was a non-empty string.
        response: Option<String>,
        /// The primary error message: the first element of the response's
        /// error sequence.
        err: String,
    },
}

/// Classifies a wire response: an empty error sequence means success and
/// the payload is returned verbatim (an empty string included); a non-empty
/// error sequence means failure, carrying the first error message and the
/// payload as a diagnostic exactly when it is non-empty. Elements of the
/// error sequence past the first are discarded.
pub fn classify_install(res: InstallResponse) -> (r: Result<String, InstallError>)
    ensures
        res.err@.len() == 0 ==> (r matches Ok(d) && d == res.data),
        res.err@.len() > 0 ==> (r matches Err(InstallError::Install { response, err })
            && err == res.err@[0]
            && response == (if res.data@.len() == 0 { Option::<String>::None } else {
                Option::Some(res.data)
            })
            && (response is Some <==> res.data@.len() > 0)),
{
    if res.err.len() > 0 {
        let err = res.err[0].clone();
        let response = if res.data.as_str().is_empty() {
            Option::None
        } else {
            Option::Some(res.data)
        };
        Err(InstallError::Install { response, err })
    } else {
        Ok(res.data)
    }
}

} // verus!
