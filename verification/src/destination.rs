//! An in-flight add-destination or remove-destination administrative
//! operation. It has the same two-phase pending/ready shape as resource
//! registration and reuses the same state machine, carrying no live
//! parameters of its own.

use vstd::prelude::*;

use crate::registration::AdminError;
use crate::registration::AsyncPoll;
use crate::registration::Registration;
use crate::registration::step_polls;
use crate::registration::step_result;
use crate::registration::step_state;

verus! {

/// One pending destination change on a publication or subscription.
pub struct Destination {
    reg: Registration<()>,
}

impl Destination {
    /// The underlying registration state machine.
    pub closed spec fn registration(self) -> Registration<()> {
        self.reg
    }

    /// A destination change the transport has just accepted: still pending.
    pub fn new(registration_id: i64) -> (r: Self)
        ensures
            r.registration().is_pending(),
            r.registration().id() == registration_id,
            r.registration().polls() == 0,
    {
        Destination { reg: Registration::new(registration_id) }
    }

    /// Whether the destination change has completed.
    pub fn is_ready(&self) -> (r: bool)
        ensures
            r == self.registration().is_ready(),
    {
        self.reg.ready()
    }

    /// Advance the operation by one poll; see
    /// [`Registration::poll_ready`]: while pending, `native` is the outcome
    /// of the one bounded native poll the caller performed; once complete,
    /// the call reports completion without consuming anything.
    pub fn poll_ready(&mut self, native: AsyncPoll<()>) -> (r: Result<bool, AdminError>)
        ensures
            final(self).registration().lifecycle() == step_state(
                old(self).registration().lifecycle(),
                native,
            ),
            final(self).registration().polls() == step_polls(
                old(self).registration().lifecycle(),
                old(self).registration().polls(),
            ),
            final(self).registration().id() == old(self).registration().id(),
            r == step_result(old(self).registration().lifecycle(), native),
    {
        self.reg.poll_ready(native)
    }
}

} // verus!
