//! The handshake driver: a fixed run of sends, flushes and receives, then
//! the hand-over of the channel.
//!
//! A driver is polled with the outcome of what it last asked for. It never
//! repeats a step that is complete: how far a step has got is held in the
//! channel's own state.

use crate::error::NoiseError;
use crate::frame::{Action, ActionView, Event, EventView, Step, StepView};
use crate::io::{Channel, Handshake, NoiseOutput, Op};
use crate::session::NoiseSession;
use vstd::prelude::*;

verus! {

/// The mathematical model of a driver: its steps, the step it is at, and
/// the channel.
pub struct DriverView {
    pub ops: Seq<Op>,
    pub pos: nat,
    pub channel: Channel,
}

/// The mathematical counterpart of [`Poll`].
pub enum PollView {
    Do(DriverView, ActionView),
    NotReady(DriverView),
    Ready([u8; 32], Channel),
    Failed(NoiseError),
}

impl DriverView {
    /// The invariant of a driver.
    pub open spec fn wf(self) -> bool {
        self.pos <= self.ops.len() && self.channel.wf()
    }

    /// A driver that is to run `ops` over a fresh channel.
    pub open spec fn fresh(ops: Seq<Op>, session: NoiseSession) -> DriverView {
        DriverView { ops, pos: 0, channel: Channel::fresh(session) }
    }

    /// One poll of the driver. It takes the steps in their order, each
    /// until it is complete, and goes on to the next with no outcome
    /// pending. Behind the last step it hands over the remote's static key
    /// and the channel, or fails with `InvalidKey`.
    pub open spec fn poll(self, event: EventView) -> PollView
        decreases self.ops.len() - self.pos,
    {
        if self.pos >= self.ops.len() {
            match self.channel.finish() {
                Ok(key) => PollView::Ready(key, self.channel),
                Err(e) => PollView::Failed(e),
            }
        } else {
            let (channel, step) = self.channel.perform(self.ops[self.pos as int], event);
            match step {
                StepView::Do(action) => PollView::Do(DriverView { channel, ..self }, action),
                StepView::Pending => PollView::NotReady(DriverView { channel, ..self }),
                StepView::Failed(kind) => PollView::Failed(NoiseError::Io(kind)),
                StepView::Ready(_) => DriverView {
                    pos: self.pos + 1,
                    channel,
                    ..self
                }.poll(EventView::Enter),
            }
        }
    }
}

/// A handshake in progress, as a driver models it.
pub trait Driven: Sized {
    /// The model of the handshake.
    spec fn driver(&self) -> DriverView;

    /// The invariant of the handshake.
    spec fn wf(&self) -> bool;
}

/// How far one poll of a handshake got.
pub enum Poll<F> {
    /// The handshake needs this done; poll it again with the outcome.
    Do(F, Action),
    /// The transport would block; poll again with [`Event::Enter`] later.
    NotReady(F),
    /// The handshake is complete: the static public key of the remote and
    /// the channel for what follows.
    Ready([u8; 32], NoiseOutput),
    /// The handshake failed.
    Failed(NoiseError),
}

impl<F: Driven> Poll<F> {
    /// Whether this answer is the one that the model gives.
    pub open spec fn agrees(self, model: PollView) -> bool {
        match model {
            PollView::Do(driver, action) => {
                &&& self matches Poll::Do(f, a)
                &&& f.driver() == driver
                &&& f.wf()
                &&& a@ == action
            },
            PollView::NotReady(driver) => {
                &&& self matches Poll::NotReady(f)
                &&& f.driver() == driver
                &&& f.wf()
            },
            PollView::Ready(key, channel) => {
                &&& self matches Poll::Ready(k, io)
                &&& k == key
                &&& io@ == channel
                &&& io.wf()
            },
            PollView::Failed(error) => {
                &&& self matches Poll::Failed(e)
                &&& e == error
            },
        }
    }
}

/// Runs a handshake: a list of steps over a channel.
pub struct Driver {
    ops: Vec<Op>,
    pos: usize,
    io: Handshake,
}

impl Driven for Driver {
    closed spec fn driver(&self) -> DriverView {
        DriverView { ops: self.ops@, pos: self.pos as nat, channel: self.io@ }
    }

    open spec fn wf(&self) -> bool {
        self.driver().wf()
    }
}

impl Driver {
    /// A driver that is to run `ops` over a fresh channel.
    pub fn new(ops: Vec<Op>, session: NoiseSession) -> (d: Driver)
        ensures
            d.driver() == DriverView::fresh(ops@, session),
            d.wf(),
    {
        Driver { ops, pos: 0, io: Handshake::new(session) }
    }

    /// Polls the handshake with the outcome of what it last asked for, or
    /// with [`Event::Enter`] where it asked for nothing.
    pub fn poll(self, event: Event) -> (r: Poll<Driver>)
        requires
            self.wf(),
        ensures
            r.agrees(self.driver().poll(event@)),
    {
        let ghost goal = self.driver().poll(event@);
        let mut this = self;
        let mut next = event;
        loop
            invariant
                this.wf(),
                goal == self.driver().poll(event@),
                this.driver().poll(next@) == goal,
            decreases this.driver().ops.len() - this.driver().pos,
        {
            if this.pos >= this.ops.len() {
                return match this.io.finish() {
                    Ok((key, io)) => Poll::Ready(key, io),
                    Err(e) => Poll::Failed(e),
                };
            }
            let op = this.ops[this.pos];
            match this.io.perform(op, next) {
                Step::Do(action) => {
                    return Poll::Do(this, action);
                },
                Step::Pending => {
                    return Poll::NotReady(this);
                },
                Step::Failed(kind) => {
                    return Poll::Failed(NoiseError::Io(kind));
                },
                Step::Ready(_) => {
                    this.pos = this.pos + 1;
                    next = Event::Enter;
                },
            }
        }
    }
}

} // verus!
