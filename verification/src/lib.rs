//! Typed request/response bridge for a set of package-management operations
//! (install, upgrade, uninstall, list, repo-add, repo-search, registry-login)
//! whose implementation runs on the far side of a foreign-call boundary.
//!
//! This crate holds the data contract of that boundary: the ergonomic
//! request types, the bridge-safe wire types, the flattening of ergonomic
//! requests into wire requests (optional scalars become zero-or-one-element
//! sequences, and unset defaults are materialized), and the classification
//! of a wire response into a typed result or a typed error. The transport that
//! carries a wire request across the boundary is a collaborator's concern
//! and is not part of this crate: a caller translates a request with
//! `into_request`, hands the wire value to its transport, and classifies
//! whatever response comes back with the operation's `classify_*` function.

pub mod bridge;
pub mod env;
pub mod flatten;
pub mod install;
pub mod list;
pub mod registry_login;
pub mod repo_add;
pub mod repo_search;
pub mod uninstall;
pub mod upgrade;

pub use env::Env;
pub use install::{Install, InstallError, classify_install};
pub use list::{List, ListError, classify_list};
pub use registry_login::{RegistryLogin, RegistryLoginError, classify_registry_login};
pub use repo_add::{RepoAdd, RepoAddError, classify_repo_add};
pub use repo_search::{RepoSearch, RepoSearchError, classify_repo_search};
pub use uninstall::{Uninstall, UninstallError, classify_uninstall};
pub use upgrade::{Upgrade, UpgradeError, classify_upgrade};
