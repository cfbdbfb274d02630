//! The bridge-safe wire types: flat records of primitives and sequences,
//! exchanged verbatim with the collaborator on the far side of the
//! foreign-call boundary. An optional scalar of the ergonomic side appears
//! here as a sequence of zero or one elements; every other field passes
//! through unchanged.

use vstd::prelude::*;

verus! {

/// Wire form of the execution-context descriptor: each optional string of
/// [`crate::env::Env`] is flattened into a zero-or-one-element sequence.
#[derive(Clone, Debug)]
pub struct HelmEnv {
    pub kube_config: Vec<String>,
    pub kube_context: Vec<String>,
    pub kube_token: Vec<String>,
    pub kube_ca_file: Vec<String>,
    pub kube_insecure_skip_tls_verify: bool,
}

#[derive(Clone, Debug)]
pub struct InstallRequest {
    pub release_name: String,
    pub chart: String,
    pub version: String,
    pub ns: String,
    pub wait: bool,
    pub timeout: Vec<i64>,
    pub create_namespace: bool,
    pub values: Vec<u8>,
    pub env: HelmEnv,
    pub dry_run: Vec<String>,
}

#[derive(Clone, Debug)]
pub struct InstallResponse {
    pub err: Vec<String>,
    pub data: String,
}

#[derive(Clone, Debug)]
pub struct UpgradeRequest {
    pub release_name: String,
    pub chart: String,
    pub version: String,
    pub ns: String,
    pub wait: bool,
    pub timeout: Vec<i64>,
    pub values: Vec<u8>,
    pub env: HelmEnv,
    pub reset_values: bool,
    pub reuse_values: bool,
    pub dry_run: Vec<String>,
}

#[derive(Clone, Debug)]
pub struct UpgradeResponse {
    pub err: Vec<String>,
    pub data: String,
}

#[derive(Clone, Debug)]
pub struct ListRequest {
    pub ns: String,
    pub env: HelmEnv,
    pub all: bool,
    pub all_namespaces: bool,
    pub sort: u64,
    pub by_date: bool,
    pub sort_reverse: bool,
    pub state_mask: u64,
    pub limit: i64,
    pub offset: i64,
    pub filter: String,
    pub no_headers: bool,
    pub time_format: String,
    pub uninstalled: bool,
    pub superseded: bool,
    pub uninstalling: bool,
    pub deployed: bool,
    pub failed: bool,
    pub pending: bool,
    pub selector: String,
}

#[derive(Clone, Debug)]
pub struct ListResponse {
    pub err: Vec<String>,
    pub data: String,
}

#[derive(Clone, Debug)]
pub struct SearchRequest {
    pub versions: bool,
    pub regexp: String,
    pub devel: bool,
    pub version: String,
    pub terms: Vec<String>,
    pub env: HelmEnv,
}

#[derive(Clone, Debug)]
pub struct SearchResponse {
    pub err: Vec<String>,
    pub data: String,
}

#[derive(Clone, Debug)]
pub struct AddRequest {
    pub name: String,
    pub url: String,
    pub username: String,
    pub password: String,
    pub password_from_stdin_opt: bool,
    pub pass_credentials_all: bool,
    pub force_update: bool,
    pub allow_deprecated_repos: bool,
    pub cert_file: String,
    pub key_file: String,
    pub ca_file: String,
    pub insecure_skip_tls_sverify: bool,
    pub env: HelmEnv,
}

/// Repo-add is an effect-only operation: its response carries no payload.
#[derive(Clone, Debug)]
pub struct AddResponse {
    pub err: Vec<String>,
}

#[derive(Clone, Debug)]
pub struct UninstallRequest {
    pub ns: String,
    pub release_name: String,
    pub disable_hooks: bool,
    pub dry_run: bool,
    pub ignore_not_found: bool,
    pub keep_history: bool,
    pub wait: bool,
    pub deletion_propagation: String,
    pub timeout: Vec<i64>,
    pub description: String,
    pub env: HelmEnv,
}

#[derive(Clone, Debug)]
pub struct UninstallResponse {
    pub err: Vec<String>,
    pub data: String,
}

#[derive(Clone, Debug)]
pub struct LoginRequest {
    pub hostname: String,
    pub username: String,
    pub password: String,
    pub cert_file: String,
    pub key_file: String,
    pub ca_file: String,
    pub insecure: bool,
    pub plain_http: bool,
    pub env: HelmEnv,
}

/// Registry-login is an effect-only operation: its response carries no payload.
#[derive(Clone, Debug)]
pub struct LoginResponse {
    pub err: Vec<String>,
}

} // verus!
