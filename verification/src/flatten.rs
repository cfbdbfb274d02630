//! The flattening convention of the bridge boundary: an optional scalar is
//! carried across the boundary as an ordered sequence of zero or one
//! elements, because the wire schema has no native optional type.

use vstd::prelude::*;

verus! {

/// The bridge encoding of an optional scalar: absent becomes the empty
/// sequence, present becomes the one-element sequence.
pub open spec fn flat_opt<T>(o: Option<T>) -> Seq<T> {
    match o {
        Option::None => seq![],
        Option::Some(x) => seq![x],
    }
}

/// The inverse reading: the empty sequence means absent, a one-element
/// sequence means present, and anything longer is malformed (outer `None`).
pub open spec fn unflat_opt<T>(s: Seq<T>) -> Option<Option<T>> {
    if s.len() == 0 {
        Option::Some(Option::None)
    } else if s.len() == 1 {
        Option::Some(Option::Some(s[0]))
    } else {
        Option::None
    }
}

/// Flattening an optional scalar and reading it back recovers the original
/// value exactly: absent round-trips through the empty sequence, and
/// `Some(x)` round-trips through the one-element sequence `[x]`.
pub proof fn lemma_flatten_round_trip<T>(o: Option<T>)
    ensures
        unflat_opt(flat_opt(o)) == Option::Some(o),
{
}

/// Timeout, in seconds, materialized by the translation layer when a
/// request leaves its timeout unset.
pub const DEFAULT_TIMEOUT_SECS: i64 = 300;

/// An operation-specific default, applied to the ergonomic value before
/// flattening: an unset field becomes the default, a set field keeps
/// exactly the value the caller gave.
pub open spec fn with_default<T>(o: Option<T>, d: T) -> Option<T> {
    match o {
        Option::None => Option::Some(d),
        Option::Some(x) => Option::Some(x),
    }
}

/// Flattens an optional string field into its wire form.
pub fn flatten_opt_string(o: Option<String>) -> (r: Vec<String>)
    ensures
        r.deep_view() == flat_opt(o.deep_view()),
{
    match o {
        Option::None => Vec::new(),
        Option::Some(s) => {
            let mut v: Vec<String> = Vec::new();
            v.push(s);
            proof {
                assert(v.deep_view() =~= flat_opt(Option::Some(s).deep_view()));
            }
            v
        },
    }
}

/// Flattens a timeout field into its wire form, materializing the default
/// of [`DEFAULT_TIMEOUT_SECS`] seconds when the field is unset: the result
/// is never the empty sequence.
pub fn flatten_timeout(o: Option<i64>) -> (r: Vec<i64>)
    ensures
        r@ == flat_opt(with_default(o, DEFAULT_TIMEOUT_SECS)),
        o is None ==> r@ == seq![DEFAULT_TIMEOUT_SECS],
        o matches Option::Some(t) ==> r@ == seq![t],
{
    let mut v: Vec<i64> = Vec::new();
    match o {
        Option::None => v.push(DEFAULT_TIMEOUT_SECS),
        Option::Some(t) => v.push(t),
    }
    proof {
        assert(v@ =~= flat_opt(with_default(o, DEFAULT_TIMEOUT_SECS)));
    }
    v
}

/// Reads an optional string field back from its wire form; a sequence of
/// more than one element is malformed and yields `None`.
pub fn unflatten_opt_string(v: Vec<String>) -> (r: Option<Option<String>>)
    ensures
        r.deep_view() == unflat_opt(v.deep_view()),
{
    if v.len() == 0 {
        Option::Some(Option::None)
    } else if v.len() == 1 {
        let mut v = v;
        let s = v.remove(0);
        Option::Some(Option::Some(s))
    } else {
        Option::None
    }
}

} // verus!
