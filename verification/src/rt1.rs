//! Futures performing 1 round trip.

use crate::driver::{Driven, Driver, DriverView, Poll};
use crate::frame::Event;
use crate::io::Op;
use crate::session::NoiseSession;
use vstd::prelude::*;

verus! {

/// A future for inbound upgrades.
///
/// It will perform the following steps:
///
/// 1. receive message
/// 2. send message
pub struct NoiseInboundFuture(Driver);

impl Driven for NoiseInboundFuture {
    closed spec fn driver(&self) -> DriverView {
        self.0.driver()
    }

    open spec fn wf(&self) -> bool {
        self.driver().wf()
    }
}

impl NoiseInboundFuture {
    /// The steps of the handshake in their order.
    pub open spec fn ops() -> Seq<Op> {
        seq![Op::Receive, Op::Send, Op::Flush]
    }

    /// The handshake over `session`, with nothing done yet.
    pub fn new(session: NoiseSession) -> (f: NoiseInboundFuture)
        ensures
            f.driver() == DriverView::fresh(NoiseInboundFuture::ops(), session),
            f.wf(),
    {
        let ops = vec![Op::Receive, Op::Send, Op::Flush];
        assert(ops@ =~= NoiseInboundFuture::ops());
        NoiseInboundFuture(Driver::new(ops, session))
    }

    /// Polls the handshake with the outcome of what it last asked for, or
    /// with [`Event::Enter`] where it asked for nothing. The answer hands
    /// the future back while the handshake goes on.
    pub fn poll(self, event: Event) -> (r: Poll<NoiseInboundFuture>)
        requires
            self.wf(),
        ensures
            r.agrees(self.driver().poll(event@)),
    {
        match self.0.poll(event) {
            Poll::Do(driver, action) => Poll::Do(NoiseInboundFuture(driver), action),
            Poll::NotReady(driver) => Poll::NotReady(NoiseInboundFuture(driver)),
            Poll::Ready(key, io) => Poll::Ready(key, io),
            Poll::Failed(error) => Poll::Failed(error),
        }
    }
}

/// A future for outbound upgrades.
///
/// It will perform the following steps:
///
/// 1. send message
/// 2. receive message
pub struct NoiseOutboundFuture(Driver);

impl Driven for NoiseOutboundFuture {
    closed spec fn driver(&self) -> DriverView {
        self.0.driver()
    }

    open spec fn wf(&self) -> bool {
        self.driver().wf()
    }
}

impl NoiseOutboundFuture {
    /// The steps of the handshake in their order.
    pub open spec fn ops() -> Seq<Op> {
        seq![Op::Send, Op::Flush, Op::Receive]
    }

    /// The handshake over `session`, with nothing done yet.
    pub fn new(session: NoiseSession) -> (f: NoiseOutboundFuture)
        ensures
            f.driver() == DriverView::fresh(NoiseOutboundFuture::ops(), session),
            f.wf(),
    {
        let ops = vec![Op::Send, Op::Flush, Op::Receive];
        assert(ops@ =~= NoiseOutboundFuture::ops());
        NoiseOutboundFuture(Driver::new(ops, session))
    }

    /// Polls the handshake with the outcome of what it last asked for, or
    /// with [`Event::Enter`] where it asked for nothing. The answer hands
    /// the future back while the handshake goes on.
    pub fn poll(self, event: Event) -> (r: Poll<NoiseOutboundFuture>)
        requires
            self.wf(),
        ensures
            r.agrees(self.driver().poll(event@)),
    {
        match self.0.poll(event) {
            Poll::Do(driver, action) => Poll::Do(NoiseOutboundFuture(driver), action),
            Poll::NotReady(driver) => Poll::NotReady(NoiseOutboundFuture(driver)),
            Poll::Ready(key, io) => Poll::Ready(key, io),
            Poll::Failed(error) => Poll::Failed(error),
        }
    }
}

} // verus!
