//! Cooperative tasks: a task owns one future that yields nothing.

use core::future::Future;
use core::pin::Pin;
use core::task::{Context, Poll};
use vstd::prelude::*;

verus! {

#[verifier::external_type_specification]
#[verifier::external_body]
pub struct ExContext<'a>(Context<'a>);

#[verifier::external_type_specification]
#[verifier::external_body]
#[verifier::reject_recursive_types(T)]
pub struct ExPoll<T>(Poll<T>);

/// A future of any type, moved to the heap and pinned there. What the
/// future is, and how far it has come, is known to the future alone.
#[verifier::external_body]
pub struct PinnedFuture {
    inner: Pin<Box<dyn Future<Output = ()>>>,
}

/// `Box::pin`: moves the future to the heap and pins it there.
#[verifier::external_body]
fn pin_boxed<F: Future<Output = ()> + 'static>(future: F) -> (pinned: PinnedFuture) {
    PinnedFuture { inner: Box::pin(future) }
}

/// `Future::poll` on the pinned future: one step of its work. A future that
/// has answered `Ready` must not be polled again.
#[verifier::external_body]
fn poll_pinned(future: &mut PinnedFuture, context: &mut Context) -> (state: Poll<()>) {
    future.inner.as_mut().poll(context)
}

/// `Poll::is_ready`: whether the state is `Ready`.
#[verifier::external_body]
fn state_is_ready(state: &Poll<()>) -> (ready: bool) {
    state.is_ready()
}

/// A unit of cooperative work.
pub struct Task {
    future: PinnedFuture,
    finished: bool,
}

impl Task {
    /// The task has answered `Ready` to a poll: its work is done.
    pub closed spec fn finished(&self) -> bool {
        self.finished
    }

    /// A task that runs `future` to its end. Nothing of it has run yet.
    pub fn new<F: Future<Output = ()> + 'static>(future: F) -> (task: Task)
        ensures
            !task.finished(),
    {
        Task { future: pin_boxed(future), finished: false }
    }

    /// Whether the task has come to its end.
    pub fn is_finished(&self) -> (done: bool)
        ensures
            done == self.finished(),
    {
        self.finished
    }

    /// Lets the task work until it next has to wait, and says whether it
    /// has come to its end. A task that has come to its end is not to be
    /// polled again.
    pub fn poll(&mut self, context: &mut Context) -> (state: Poll<()>)
        requires
            !old(self).finished(),
    {
        let state = poll_pinned(&mut self.future, context);
        self.finished = state_is_ready(&state);
        state
    }
}

} // verus!
