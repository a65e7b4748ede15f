//! Per-call parameter resolution: merging client-wide defaults, an optional
//! explicit per-call override, and — only when no override was supplied — a
//! freshly rotated address from the pool, into one concrete parameter set.

use vstd::prelude::*;
use crate::pool::{AddressPool, ConfigurationError};

verus! {

/// Client-wide default parameters, inherited by every call. They carry no
/// base address: address selection belongs to the pool, unless an explicit
/// override supplies one.
pub struct ClientParams {
    pub headers: Vec<(String, String)>,
    pub url_query: Vec<(String, String)>,
}

/// A concrete parameter set for one call, ready for the transport: the base
/// address to dial, plus headers and query pairs.
pub struct RequestParams {
    pub base_url: String,
    pub headers: Vec<(String, String)>,
    pub url_query: Vec<(String, String)>,
}

/// Where one call's parameters come from: either the caller supplied a full
/// explicit override, or selection is deferred to the pool at resolution
/// time. A value of this type is consumed exactly once, by `resolve`; the two
/// choices are mutually exclusive by construction.
pub enum ParamsSource {
    Explicit(RequestParams),
    Deferred,
}

/// Copies a list of name/value pairs.
fn clone_pairs(v: &Vec<(String, String)>) -> (r: Vec<(String, String)>)
    ensures
        r@ == v@,
{
    let mut out: Vec<(String, String)> = Vec::new();
    let n = v.len();
    for i in 0..n
        invariant
            n == v@.len(),
            out@ == v@.take(i as int),
    {
        out.push((v[i].0.clone(), v[i].1.clone()));
        assert(out@ =~= v@.take(i + 1 as int));
    }
    assert(v@.take(n as int) =~= v@);
    out
}

/// What resolution leaves behind: how the resolved parameter set `r` and the
/// pool's new state `pool1` relate to the consumed source, the client-wide
/// defaults, and the pool's prior state `pool0`. An explicit override leaves
/// the pool untouched; a deferred source rotates exactly one address out of
/// it, and fails exactly when the pool is empty.
pub open spec fn resolution_post(
    source: ParamsSource,
    defaults: ClientParams,
    pool0: AddressPool,
    pool1: AddressPool,
    r: Result<RequestParams, ConfigurationError>,
) -> bool {
    &&& pool1.wf()
    &&& pool1.addrs() == pool0.addrs()
    &&& match source {
        ParamsSource::Explicit(p) => {
            &&& pool1 == pool0
            &&& (r matches Ok(q) && {
                &&& q.base_url == p.base_url
                &&& q.headers@ == defaults.headers@ + p.headers@
                &&& q.url_query@ == defaults.url_query@ + p.url_query@
            })
        },
        ParamsSource::Deferred => {
            if pool0.spec_len() == 0 {
                r is Err && pool1 == pool0
            } else {
                &&& (r matches Ok(q) && {
                    &&& q.base_url@ == pool0.addrs()[pool0.cursor()]@
                    &&& q.headers@ == defaults.headers@
                    &&& q.url_query@ == defaults.url_query@
                })
                &&& pool1.cursor() == pool0.selection(1)
            }
        },
    }
}

/// Resolves the parameters of one call, exactly once, before any transport
/// work. An explicit override short-circuits: the pool is left untouched and
/// the override's address is used as-is, merged with the client defaults.
/// Otherwise one address is rotated out of the pool; an empty pool is the
/// one configuration failure.
pub fn resolve(source: ParamsSource, defaults: &ClientParams, pool: &mut AddressPool) -> (r:
    Result<RequestParams, ConfigurationError>)
    requires
        old(pool).wf(),
    ensures
        resolution_post(source, *defaults, *old(pool), *final(pool), r),
{
    match source {
        ParamsSource::Explicit(p) => {
            let mut p = p;
            let mut headers = clone_pairs(&defaults.headers);
            headers.append(&mut p.headers);
            let mut url_query = clone_pairs(&defaults.url_query);
            url_query.append(&mut p.url_query);
            Ok(RequestParams { base_url: p.base_url, headers, url_query })
        },
        ParamsSource::Deferred => {
            match pool.next() {
                Ok(address) => Ok(RequestParams {
                    base_url: address,
                    headers: clone_pairs(&defaults.headers),
                    url_query: clone_pairs(&defaults.url_query),
                }),
                Err(e) => Err(e),
            }
        },
    }
}

} // verus!
