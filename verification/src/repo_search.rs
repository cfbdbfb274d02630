//! The repo-search operation: ergonomic request, its translation into the
//! wire request, and the classification of the wire response.

use vstd::prelude::*;

use crate::bridge::{SearchRequest, SearchResponse};
use crate::env::{Env, bridge_env_wf, env_flattened, env_is_default};

verus! {

/// Caller-facing repo-search request.
#[derive(Clone, Debug)]
pub struct RepoSearch {
    /// Shows every version of each chart, not only the latest.
    pub versions: bool,
    /// Regular expression the terms are matched against.
    pub regexp: String,
    /// Includes development versions.
    pub devel: bool,
    /// Version constraint on the results.
    pub version: String,
    /// Search terms; passed through as given, with no default injected: an
    /// empty list stays empty on the wire.
    pub terms: Vec<String>,
    pub env: Env,
}

/// The wire request `r` is exactly the translation of the ergonomic request
/// `req`: every plain field — the term list included — passes through
/// unchanged, and the embedded descriptor is flattened field by field.
pub open spec fn repo_search_translated(req: RepoSearch, r: SearchRequest) -> bool {
    &&& r.versions == req.versions
    &&& r.regexp == req.regexp
    &&& r.devel == req.devel
    &&& r.version == req.version
    &&& r.terms == req.terms
    &&& env_flattened(req.env, r.env)
}

impl RepoSearch {
    /// Translates the ergonomic request into its wire form. Total and
    /// lossless; the term list has no default, so an empty list produces an
    /// empty wire sequence.
    pub fn into_request(self) -> (r: SearchRequest)
        ensures
            repo_search_translated(self, r),
            bridge_env_wf(r.env),
    {
        SearchRequest {
            versions: self.versions,
            regexp: self.regexp,
            devel: self.devel,
            version: self.version,
            terms: self.terms,
            env: self.env.into_bridge(),
        }
    }
}

impl Default for RepoSearch {
    /// The default request: every string empty, every flag off, no search
    /// terms, and the default descriptor.
    fn default() -> (r: Self)
        ensures
            !r.versions,
            r.regexp@ == Seq::<char>::empty(),
            !r.devel,
            r.version@ == Seq::<char>::empty(),
            r.terms@ == Seq::<String>::empty(),
            env_is_default(r.env),
    {
        RepoSearch {
            versions: false,
            regexp: String::new(),
            devel: false,
            version: String::new(),
            terms: Vec::new(),
            env: Env::default(),
        }
    }
}

/// Typed failure of the repo-search operation.
#[derive(Clone, Debug, PartialEq, Eq)]
pub enum RepoSearchError {
    RepoSearch {
        /// Partial or diagnostic output accompanying the failure; present
        /// exactly when the response's payload was a non-empty string.
        response: Option<String>,
        /// The primary error message: the first element of the response's
        /// error sequence.
        err: String,
    },
}

/// Classifies a wire response: an empty error sequence means success and
/// the payload is returned verbatim (an empty string included); a non-empty
/// error sequence means failure, carrying the first error message and the
/// payload as a diagnostic exactly when it is non-empty. Elements of the
/// error sequence past the first are discarded.
pub fn classify_repo_search(res: SearchResponse) -> (r: Result<String, RepoSearchError>)
    ensures
        res.err@.len() == 0 ==> (r matches Ok(d) && d == res.data),
        res.err@.len() > 0 ==> (r matches Err(RepoSearchError::RepoSearch { response, err })
            && err == res.err@[0]
            && response == (if res.data@.len() == 0 { Option::<String>::None } else {
                Option::Some(res.data)
            })
            && (response is Some <==> res.data@.len() > 0)),
{
    if res.err.len() > 0 {
        let err = res.err[0].clone();
        let response = if res.data.as_str().is_empty() {
            Option::None
        } else {
            Option::Some(res.data)
        };
        Err(RepoSearchError::RepoSearch { response, err })
    } else {
        Ok(res.data)
    }
}

} // verus!
