//! A resumable computation driven from the outside.
//!
//! The body of a coroutine is a computation that runs in steps: each step
//! either suspends with a payload value or terminates with a result. The
//! owner drives it through [`Coroutine::run`], which delivers a reply value
//! to the suspended step and blocks—synchronously, from the owner's point of
//! view—until the body suspends again or terminates. Once the body has
//! terminated the coroutine is terminal: [`Coroutine::is_finished`] reports
//! true and it must never be run again; the owning layer mediates further
//! run attempts as poisoning.

use vstd::prelude::*;

verus! {

/// What one step of a coroutine body does: suspend with a payload, or
/// terminate with a result.
pub enum BodyStep<Y, R> {
    /// The body suspends, handing the payload to the outside caller; the
    /// next step will receive the caller's reply.
    Yielded(Y),
    /// The body terminated with this result; it can never be stepped again.
    Done(R),
}

/// The body of a coroutine: a computation that can be stepped.
///
/// On the first step `resume` is `None`: the computation begins from its
/// start. On every later step `resume` carries the reply to the payload the
/// body last suspended with.
pub trait CoroutineBody {
    /// The reply type delivered to a suspended step.
    type Resume;

    /// The payload type a suspended step hands to the outside.
    type Yield;

    /// The type the computation terminates with.
    type Return;

    /// Runs the computation up to its next suspension point or to its end.
    fn step(&mut self, resume: Option<Self::Resume>) -> BodyStep<Self::Yield, Self::Return>;
}

/// Outcome of one [`Coroutine::run`] call.
pub enum RunOut<Y, R> {
    /// The body suspended with this payload; the coroutine can be run again
    /// with a reply.
    Interrupted(Y),
    /// The body terminated with this result; the coroutine is terminal.
    Finished(R),
}

/// A computation that can suspend itself with a payload and be resumed later
/// with a reply, synchronously from the owner's point of view.
pub struct Coroutine<B: CoroutineBody> {
    body: B,
    started: bool,
    finished: bool,
}

impl<B: CoroutineBody> Coroutine<B> {
    /// The body's current state.
    pub closed spec fn body_view(&self) -> B {
        self.body
    }

    /// Whether the coroutine has been run at least once.
    pub closed spec fn started_spec(&self) -> bool {
        self.started
    }

    /// Whether the body has terminated; once true it stays true, and running
    /// the coroutine again is a contract violation.
    pub closed spec fn finished_spec(&self) -> bool {
        self.finished
    }

    /// Wraps a body into a coroutine that has not started yet.
    pub fn new(body: B) -> (r: Coroutine<B>)
        ensures
            !r.started_spec(),
            !r.finished_spec(),
            r.body_view() == body,
    {
        Coroutine { body, started: false, finished: false }
    }

    /// The suspended body's state. While the coroutine is not running, its
    /// owner may inspect state the body left behind; this is the one
    /// sanctioned channel of shared state across the suspend boundary.
    pub fn body(&self) -> (r: &B)
        ensures
            *r == self.body_view(),
    {
        &self.body
    }

    /// The suspended body's state, mutably; see [`Coroutine::body`].
    pub fn body_mut(&mut self) -> (r: &mut B)
        ensures
            *r == old(self).body_view(),
            final(self).body_view() == *final(r),
            final(self).started_spec() == old(self).started_spec(),
            final(self).finished_spec() == old(self).finished_spec(),
    {
        &mut self.body
    }

    /// Whether the body has terminated.
    pub fn is_finished(&self) -> (r: bool)
        ensures
            r == self.finished_spec(),
    {
        self.finished
    }

    /// Transfers control into the coroutine: starts the body on the first
    /// call (which must pass no reply), or delivers `resume` to the pending
    /// suspension on later calls. Returns when the body suspends again or
    /// terminates. Must not be called once the coroutine is finished.
    pub fn run(&mut self, resume: Option<B::Resume>) -> (r: RunOut<B::Yield, B::Return>)
        requires
            !old(self).finished_spec(),
            old(self).started_spec() <==> resume is Some,
        ensures
            final(self).started_spec(),
            final(self).finished_spec() <==> r is Finished,
    {
        self.started = true;
        match self.body.step(resume) {
            BodyStep::Yielded(y) => RunOut::Interrupted(y),
            BodyStep::Done(ret) => {
                self.finished = true;
                RunOut::Finished(ret)
            }
        }
    }
}

} // verus!
