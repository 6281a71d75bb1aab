//! The interaction waiter: listens to the actions made on one prompt and
//! returns the first one made by the expected user.
//!
//! The waiter itself only decides.  Whoever runs it feeds it the stream's
//! events one at a time and carries out each step it returns: tells another
//! user that the prompt is not theirs, or tears the subscription down and
//! hands back the result.

use vstd::prelude::*;

verus! {

/// An event of the stream of actions on a prompt.
#[derive(Debug, Clone, PartialEq, Eq)]
pub enum WaitEvent {
    /// A user pressed one of the prompt's buttons; `token` names the button.
    Action { actor: i64, token: String },
    /// The time allowed for a reply ran out.
    TimedOut,
    /// The stream ended.
    Closed,
}

/// What the runner of a waiter does next.
#[derive(Debug, Clone, PartialEq, Eq)]
pub enum WaitStep {
    /// Tell this user that the prompt is not addressed to them, drop the
    /// action, and wait on.
    Redirect(i64),
    /// Tear the subscription down and hand back the token of the expected
    /// user's action, or `None` when no such action came.
    Finish(Option<String>),
}

/// Waits for one action of `target`.
#[derive(Debug)]
pub struct InteractionWaiter {
    pub target: i64,
    pub finished: bool,
}

impl InteractionWaiter {
    /// A waiter for an action of `target`.
    pub fn new(target: i64) -> (r: InteractionWaiter)
        ensures
            r.target == target,
            !r.finished,
    {
        InteractionWaiter { target, finished: false }
    }

    /// Takes the next event.  The first action of the target, a timeout or
    /// the end of the stream finishes the waiter, which then takes no more
    /// events: the subscription is torn down exactly once, on every way out.
    /// Every other action is redirected.
    pub fn on_event(&mut self, event: WaitEvent) -> (r: WaitStep)
        requires
            !old(self).finished,
        ensures
            final(self).target == old(self).target,
            match event {
                WaitEvent::Action { actor, token } => if actor == old(self).target {
                    r == WaitStep::Finish(Some(token)) && final(self).finished
                } else {
                    r == WaitStep::Redirect(actor) && !final(self).finished
                },
                _ => r == WaitStep::Finish(None) && final(self).finished,
            },
    {
        match event {
            WaitEvent::Action { actor, token } => {
                if actor == self.target {
                    self.finished = true;
                    WaitStep::Finish(Some(token))
                } else {
                    WaitStep::Redirect(actor)
                }
            },
            _ => {
                self.finished = true;
                WaitStep::Finish(None)
            },
        }
    }
}

} // verus!
