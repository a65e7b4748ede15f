//! The wire-request descriptor, the single-use request builder, and the
//! clients that open builders. A builder resolves its parameters exactly once
//! when it is sent, and sending consumes it, so a second send or a
//! configuration change after sending cannot be written at all.

use vstd::prelude::*;
use crate::params::{resolution_post, ClientParams, ParamsSource, RequestParams, resolve};
use crate::pool::{AddressPool, ConfigurationError};

verus! {

/// The HTTP method of a wire request.
#[derive(Debug, Clone, Copy, PartialEq, Eq, Structural)]
pub enum HttpMethod {
    Get,
    Post,
    Put,
    Delete,
    Head,
    Patch,
}

/// An immutable description of one outbound call, independent of transport
/// and address: method, path (with path parameters already substituted), and
/// an optional serialized body.
pub struct Endpoint {
    pub method: HttpMethod,
    pub url: String,
    pub body: Option<Vec<u8>>,
}

/// The inner state of a raw request builder: just the endpoint to send.
pub struct RawRequestInner {
    pub endpoint: Endpoint,
}

impl RawRequestInner {
    pub fn new(endpoint: Endpoint) -> (r: Self)
        ensures
            r.endpoint == endpoint,
    {
        RawRequestInner { endpoint }
    }
}

/// A request builder that can be configured before sending. Sending takes the
/// builder by value: once sent, neither a second send nor a later
/// configuration call can be expressed.
pub struct RequestBuilder<TInner> {
    pub params_builder: ParamsSource,
    pub inner: TInner,
}

/// A raw request builder over an already-built endpoint.
pub type RawRequestBuilder = RequestBuilder<RawRequestInner>;

/// An index exists request builder.
pub type IndexExistsRequestBuilder = RequestBuilder<IndexExistsRequestInner>;

impl<TInner> RequestBuilder<TInner> {
    /// Opens a builder whose address selection is deferred to the pool.
    pub fn initial(inner: TInner) -> (r: Self)
        ensures
            r.inner == inner,
            r.params_builder is Deferred,
    {
        RequestBuilder { params_builder: ParamsSource::Deferred, inner }
    }

    pub fn new(params_builder: ParamsSource, inner: TInner) -> (r: Self)
        ensures
            r.inner == inner,
            r.params_builder == params_builder,
    {
        RequestBuilder { params_builder, inner }
    }

    /// Supplies an explicit per-call parameter override; the pool will not be
    /// consulted when this builder is sent.
    pub fn params(self, p: RequestParams) -> (r: Self)
        ensures
            r.inner == self.inner,
            r.params_builder == ParamsSource::Explicit(p),
    {
        RequestBuilder { params_builder: ParamsSource::Explicit(p), inner: self.inner }
    }
}

/// One resolved request, ready for a transport: the wire descriptor plus the
/// concrete parameters it is to be dialled with.
pub struct SendableRequest {
    pub endpoint: Endpoint,
    pub params: RequestParams,
}

impl SendableRequest {
    pub fn new(endpoint: Endpoint, params: RequestParams) -> (r: Self)
        ensures
            r.endpoint == endpoint,
            r.params == params,
    {
        SendableRequest { endpoint, params }
    }
}

/// A client: the address pool it owns for its lifetime, plus client-wide
/// default parameters merged into every call.
pub struct Client {
    pub addresses: AddressPool,
    pub defaults: ClientParams,
}

impl Client {
    pub fn new(addresses: Vec<String>, defaults: ClientParams) -> (c: Self)
        ensures
            c.addresses.wf(),
            c.addresses.addrs() == addresses@,
            c.addresses.cursor() == 0,
            c.defaults == defaults,
    {
        Client { addresses: AddressPool::new(addresses), defaults }
    }

    /// Opens a raw request builder for the given endpoint.
    pub fn request(&self, endpoint: Endpoint) -> (r: RawRequestBuilder)
        ensures
            r.inner.endpoint == endpoint,
            r.params_builder is Deferred,
    {
        RequestBuilder::initial(RawRequestInner::new(endpoint))
    }

    /// Scopes a client to one index.
    pub fn index(&self, index: String) -> (r: IndexClient)
        ensures
            r.index == index,
    {
        IndexClient { index }
    }
}

impl RequestBuilder<RawRequestInner> {
    /// Sends a raw request: resolves the parameters exactly once — rotating
    /// an address out of the pool only if no explicit override was supplied —
    /// and yields the resolved request for the transport. Consuming `self`
    /// makes a second send of the same builder unrepresentable.
    pub fn send(self, client: &mut Client) -> (r: Result<SendableRequest, ConfigurationError>)
        requires
            old(client).addresses.wf(),
        ensures
            final(client).defaults == old(client).defaults,
            match r {
                Ok(req) => req.endpoint == self.inner.endpoint && resolution_post(
                    self.params_builder,
                    old(client).defaults,
                    old(client).addresses,
                    final(client).addresses,
                    Ok(req.params),
                ),
                Err(e) => resolution_post(
                    self.params_builder,
                    old(client).defaults,
                    old(client).addresses,
                    final(client).addresses,
                    Err(e),
                ),
            },
    {
        let endpoint = self.inner.endpoint;
        match resolve(self.params_builder, &client.defaults, &mut client.addresses) {
            Ok(params) => Ok(SendableRequest::new(endpoint, params)),
            Err(e) => Err(e),
        }
    }
}

/// A client scoped to one index.
pub struct IndexClient {
    pub index: String,
}

impl IndexClient {
    /// Opens an index exists request builder for this index.
    pub fn exists_request(self) -> (r: IndexExistsRequestBuilder)
        ensures
            r.inner.index == self.index,
            r.params_builder is Deferred,
    {
        RequestBuilder::initial(IndexExistsRequestInner { index: self.index })
    }
}

/// The inner state of an index exists request builder.
pub struct IndexExistsRequestInner {
    pub index: String,
}

impl IndexExistsRequestInner {
    /// Builds the wire request for an index existence check: a HEAD request
    /// to the index's root path, with no body.
    pub fn into_request(self) -> (r: Endpoint)
        ensures
            r.method == HttpMethod::Head,
            r.url@ == "/"@ + self.index@,
            r.body is None,
    {
        let url = String::from_str("/").concat(self.index.as_str());
        Endpoint { method: HttpMethod::Head, url, body: None }
    }
}

impl RequestBuilder<IndexExistsRequestInner> {
    /// Sends an index exists request: builds the HEAD request for the index,
    /// then resolves parameters and yields the resolved request exactly as a
    /// raw send does. The response is read with the status-only parse.
    pub fn send(self, client: &mut Client) -> (r: Result<SendableRequest, ConfigurationError>)
        requires
            old(client).addresses.wf(),
        ensures
            final(client).defaults == old(client).defaults,
            match r {
                Ok(req) => {
                    &&& req.endpoint.method == HttpMethod::Head
                    &&& req.endpoint.url@ == "/"@ + self.inner.index@
                    &&& req.endpoint.body is None
                    &&& resolution_post(
                        self.params_builder,
                        old(client).defaults,
                        old(client).addresses,
                        final(client).addresses,
                        Ok(req.params),
                    )
                },
                Err(e) => resolution_post(
                    self.params_builder,
                    old(client).defaults,
                    old(client).addresses,
                    final(client).addresses,
                    Err(e),
                ),
            },
    {
        let req = self.inner.into_request();
        RequestBuilder::new(self.params_builder, RawRequestInner::new(req)).send(client)
    }
}

} // verus!
