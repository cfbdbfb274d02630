//! The ergonomic execution-context descriptor and its translation into the
//! bridge wire form.

use vstd::prelude::*;

use crate::bridge::HelmEnv;
use crate::flatten::{flat_opt, flatten_opt_string};

verus! {

/// Caller-facing execution-context descriptor: optional fields are native
/// options; the wire form flattens each of them into a zero-or-one-element
/// sequence.
#[derive(Clone, Debug)]
pub struct Env {
    /// Path to the cluster configuration file.
    pub kube_config: Option<String>,
    /// Name of the configuration context to use.
    pub kube_context: Option<String>,
    /// Bearer token used for authentication.
    pub kube_token: Option<String>,
    /// Custom certificate-authority file.
    pub kube_ca_file: Option<String>,
    /// When set, the server's certificate is not checked for validity,
    /// which makes the connection insecure.
    pub kube_insecure_skip_tls_verify: bool,
}

/// The wire descriptor `b` is exactly the flattening of the ergonomic
/// descriptor `e`: every optional string field becomes its zero-or-one
/// element sequence, and the boolean passes through unchanged.
pub open spec fn env_flattened(e: Env, b: HelmEnv) -> bool {
    &&& b.kube_config.deep_view() == flat_opt(e.kube_config.deep_view())
    &&& b.kube_context.deep_view() == flat_opt(e.kube_context.deep_view())
    &&& b.kube_token.deep_view() == flat_opt(e.kube_token.deep_view())
    &&& b.kube_ca_file.deep_view() == flat_opt(e.kube_ca_file.deep_view())
    &&& b.kube_insecure_skip_tls_verify == e.kube_insecure_skip_tls_verify
}

/// Wire-form invariant of the descriptor: none of the flattened fields
/// ever holds more than one element.
pub open spec fn bridge_env_wf(b: HelmEnv) -> bool {
    &&& b.kube_config.deep_view().len() <= 1
    &&& b.kube_context.deep_view().len() <= 1
    &&& b.kube_token.deep_view().len() <= 1
    &&& b.kube_ca_file.deep_view().len() <= 1
}

/// The default descriptor: every optional field absent, strict
/// certificate checking.
pub open spec fn env_is_default(e: Env) -> bool {
    &&& e.kube_config is None
    &&& e.kube_context is None
    &&& e.kube_token is None
    &&& e.kube_ca_file is None
    &&& !e.kube_insecure_skip_tls_verify
}

/// A flattened descriptor always satisfies the wire-form invariant.
pub proof fn lemma_env_flattened_wf(e: Env, b: HelmEnv)
    requires
        env_flattened(e, b),
    ensures
        bridge_env_wf(b),
{
}

impl Env {
    /// Translates the descriptor into its bridge wire form.
    pub fn into_bridge(self) -> (r: HelmEnv)
        ensures
            env_flattened(self, r),
            bridge_env_wf(r),
    {
        HelmEnv {
            kube_config: flatten_opt_string(self.kube_config),
            kube_context: flatten_opt_string(self.kube_context),
            kube_token: flatten_opt_string(self.kube_token),
            kube_ca_file: flatten_opt_string(self.kube_ca_file),
            kube_insecure_skip_tls_verify: self.kube_insecure_skip_tls_verify,
        }
    }
}

impl Default for Env {
    fn default() -> (r: Self)
        ensures
            env_is_default(r),
    {
        Env {
            kube_config: Option::None,
            kube_context: Option::None,
            kube_token: Option::None,
            kube_ca_file: Option::None,
            kube_insecure_skip_tls_verify: false,
        }
    }
}

} // verus!
