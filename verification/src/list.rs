//! The list operation: ergonomic request, its translation into the wire
//! request, and the classification of the wire response.

use vstd::prelude::*;

use crate::bridge::{ListRequest, ListResponse};
use crate::env::{Env, bridge_env_wf, env_flattened, env_is_default};

verus! {

/// Caller-facing list request. Every field is a plain scalar that passes
/// through to the wire unchanged; only the embedded descriptor is flattened.
#[derive(Clone, Debug)]
pub struct List {
    /// Ignores the limit and offset when set.
    pub all: bool,
    /// Searches across namespaces.
    pub all_namespaces: bool,
    /// Selects the sorter to use.
    pub sort: u64,
    /// Overrides the default lexicographic sorting.
    pub by_date: bool,
    pub sort_reverse: bool,
    /// Bitmask of states for items to show.
    pub state_mask: u64,
    /// Number of items to return per run.
    pub limit: i64,
    /// Starting index for the run.
    pub offset: i64,
    /// Filter applied to the results.
    pub filter: String,
    pub no_headers: bool,
    pub time_format: String,
    pub uninstalled: bool,
    pub superseded: bool,
    pub uninstalling: bool,
    pub deployed: bool,
    pub failed: bool,
    pub pending: bool,
    pub selector: String,
    pub ns: String,
    pub env: Env,
}

/// The wire request `r` is exactly the translation of the ergonomic request
/// `req`: every plain field passes through unchanged and the embedded
/// descriptor is flattened field by field.
pub open spec fn list_translated(req: List, r: ListRequest) -> bool {
    &&& r.all == req.all
    &&& r.all_namespaces == req.all_namespaces
    &&& r.sort == req.sort
    &&& r.by_date == req.by_date
    &&& r.sort_reverse == req.sort_reverse
    &&& r.state_mask == req.state_mask
    &&& r.limit == req.limit
    &&& r.offset == req.offset
    &&& r.filter == req.filter
    &&& r.no_headers == req.no_headers
    &&& r.time_format == req.time_format
    &&& r.uninstalled == req.uninstalled
    &&& r.superseded == req.superseded
    &&& r.uninstalling == req.uninstalling
    &&& r.deployed == req.deployed
    &&& r.failed == req.failed
    &&& r.pending == req.pending
    &&& r.selector == req.selector
    &&& r.ns == req.ns
    &&& env_flattened(req.env, r.env)
}

impl List {
    /// Translates the ergonomic request into its wire form. Total and
    /// lossless; no field of this request has a default to materialize.
    pub fn into_request(self) -> (r: ListRequest)
        ensures
            list_translated(self, r),
            bridge_env_wf(r.env),
    {
        ListRequest {
            all: self.all,
            all_namespaces: self.all_namespaces,
            sort: self.sort,
            by_date: self.by_date,
            sort_reverse: self.sort_reverse,
            state_mask: self.state_mask,
            limit: self.limit,
            offset: self.offset,
            filter: self.filter,
            no_headers: self.no_headers,
            time_format: self.time_format,
            uninstalled: self.uninstalled,
            superseded: self.superseded,
            uninstalling: self.uninstalling,
            deployed: self.deployed,
            failed: self.failed,
            pending: self.pending,
            selector: self.selector,
            ns: self.ns,
            env: self.env.into_bridge(),
        }
    }
}

impl Default for List {
    /// The default request: every string empty, every flag off, every
    /// number zero, and the default descriptor.
    fn default() -> (r: Self)
        ensures
            !r.all,
            !r.all_namespaces,
            r.sort == 0u64,
            !r.by_date,
            !r.sort_reverse,
            r.state_mask == 0u64,
            r.limit == 0i64,
            r.offset == 0i64,
            r.filter@ == Seq::<char>::empty(),
            !r.no_headers,
            r.time_format@ == Seq::<char>::empty(),
            !r.uninstalled,
            !r.superseded,
            !r.uninstalling,
            !r.deployed,
            !r.failed,
            !r.pending,
            r.selector@ == Seq::<char>::empty(),
            r.ns@ == Seq::<char>::empty(),
            env_is_default(r.env),
    {
        List {
            all: false,
            all_namespaces: false,
            sort: 0,
            by_date: false,
            sort_reverse: false,
            state_mask: 0,
            limit: 0,
            offset: 0,
            filter: String::new(),
            no_headers: false,
            time_format: String::new(),
            uninstalled: false,
            superseded: false,
            uninstalling: false,
            deployed: false,
            failed: false,
            pending: false,
            selector: String::new(),
            ns: String::new(),
            env: Env::default(),
        }
    }
}

/// Typed failure of the list operation.
#[derive(Clone, Debug, PartialEq, Eq)]
pub enum ListError {
    List {
        /// Partial or diagnostic output accompanying the failure; present
        /// exactly when the response's payload was a non-empty string.
        response: Option<String>,
        /// The primary error message: the first element of the response's
        /// error sequence.
        err: String,
    },
}

/// Classifies a wire response: an empty error sequence means success and
/// the payload is returned verbatim (an empty string included); a non-empty
/// error sequence means failure, carrying the first error message and the
/// payload as a diagnostic exactly when it is non-empty. Elements of the
/// error sequence past the first are discarded.
pub fn classify_list(res: ListResponse) -> (r: Result<String, ListError>)
    ensures
        res.err@.len() == 0 ==> (r matches Ok(d) && d == res.data),
        res.err@.len() > 0 ==> (r matches Err(ListError::List { response, err })
            && err == res.err@[0]
            && response == (if res.data@.len() == 0 { Option::<String>::None } else {
                Option::Some(res.data)
            })
            && (response is Some <==> res.data@.len() > 0)),
{
    if res.err.len() > 0 {
        let err = res.err[0].clone();
        let response = if res.data.as_str().is_empty() {
            Option::None
        } else {
            Option::Some(res.data)
        };
        Err(ListError::List { response, err })
    } else {
        Ok(res.data)
    }
}

} // verus!
