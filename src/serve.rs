//! Pairing a stream of incoming connections with a service factory, and the
//! per-connection wrapper that records the peer address on each request.

use vstd::prelude::*;
use crate::config::Http;

verus! {

/// A stream of incoming connections paired with a service factory and the
/// protocol options that each connection is served with.
#[derive(Debug)]
pub struct Serve<I, S> {
    incoming: I,
    new_service: S,
    protocol: Http,
}

impl<I, S> Serve<I, S> {
    pub closed spec fn spec_incoming(&self) -> I {
        self.incoming
    }

    pub closed spec fn spec_new_service(&self) -> S {
        self.new_service
    }

    pub closed spec fn spec_protocol(&self) -> Http {
        self.protocol
    }

    /// A reference to the incoming stream.
    pub fn incoming_ref(&self) -> (r: &I)
        ensures
            *r == self.spec_incoming(),
    {
        &self.incoming
    }

    /// A mutable reference to the incoming stream, to poll it.
    pub fn incoming_mut(&mut self) -> (r: &mut I)
        ensures
            *r == old(self).spec_incoming(),
            final(self).spec_incoming() == *final(r),
            final(self).spec_new_service() == old(self).spec_new_service(),
            final(self).spec_protocol() == old(self).spec_protocol(),
    {
        &mut self.incoming
    }

    /// A reference to the service factory.
    pub fn new_service_ref(&self) -> (r: &S)
        ensures
            *r == self.spec_new_service(),
    {
        &self.new_service
    }

    /// The protocol options each connection is served with.
    pub fn protocol(&self) -> (r: Http)
        ensures
            r == self.spec_protocol(),
    {
        self.protocol
    }
}

impl Http {
    /// Pairs a stream of incoming connections with a service factory; each
    /// connection is served with a copy of these options.
    pub fn serve_incoming<I, S>(&self, incoming: I, new_service: S) -> (r: Serve<I, S>)
        ensures
            r.spec_incoming() == incoming,
            r.spec_new_service() == new_service,
            r.spec_protocol() == *self,
    {
        Serve { incoming, new_service, protocol: *self }
    }
}

/// A service that takes this library's requests and gives its responses,
/// with a streaming body. Only this library names the types that can
/// implement it.
pub trait HyperService: Sealed {
    /// The body type of the responses.
    type ResponseBody;

    /// A marker that keeps the trait closed to other crates.
    type Sealed: Sealed2;
}

/// Marks the services that may implement `HyperService`.
pub trait Sealed {
}

/// Marks the types that may stand as `HyperService::Sealed`.
pub trait Sealed2 {
}

/// The one type that stands as `HyperService::Sealed`.
#[derive(Debug)]
pub struct Opaque {
    _inner: (),
}

impl Sealed2 for Opaque {
}

/// A service of one connection, with the peer address of that connection,
/// which it records on every request before handing it on.
#[derive(Debug)]
pub struct SocketAddrService<A, S> {
    addr: A,
    inner: S,
}

impl<A, S> SocketAddrService<A, S> {
    pub closed spec fn spec_addr(&self) -> A {
        self.addr
    }

    pub closed spec fn spec_inner(&self) -> S {
        self.inner
    }
}

impl<A: Copy, S> SocketAddrService<A, S> {
    /// Wraps `service`, the service of a connection from `addr`.
    pub fn new(addr: A, service: S) -> (r: SocketAddrService<A, S>)
        ensures
            r.spec_addr() == addr,
            r.spec_inner() == service,
    {
        SocketAddrService { addr, inner: service }
    }

    /// The peer address of the connection.
    pub fn addr(&self) -> (r: A)
        ensures
            r == self.spec_addr(),
    {
        self.addr
    }

    /// The wrapped service.
    pub fn inner(&self) -> (r: &S)
        ensures
            *r == self.spec_inner(),
    {
        &self.inner
    }

    /// Records the peer address in a request's address slot.
    pub fn stamp(&self, slot: &mut Option<A>)
        ensures
            *final(slot) == Some(self.spec_addr()),
    {
        *slot = Some(self.addr);
    }
}

/// Every request of a connection, once stamped by the service made for it,
/// carries the peer address that the connection was accepted with, whatever
/// the request carried before.
pub proof fn lemma_address_injection<A, S>(
    svc: SocketAddrService<A, S>,
    accepted: A,
    stamped: Option<A>,
)
    requires
        svc.spec_addr() == accepted,
        stamped == Some(svc.spec_addr()),
    ensures
        stamped == Some(accepted),
{
}

} // verus!
