//! The session initiator: the steps that open a prompt session, and what
//! becomes of the process when the transport fails one of them.

use crate::address::CallbackAddress;
use crate::callback::PrompterCallback;
use crate::prompter::{PrompterCall, PrompterCallView};
use vstd::prelude::*;

verus! {

/// What the transport could not do.
#[derive(Clone, Copy, Debug, PartialEq, Eq, Structural)]
pub enum TransportError {
    /// The callback endpoint could not be registered.
    Registration,
    /// The request to begin prompting could not be delivered.
    Delivery,
}

/// How far the opening of a session has come.
#[derive(Clone, Copy, Debug, PartialEq, Eq, Structural)]
pub enum Phase {
    /// The callback endpoint is to be registered.
    Registering,
    /// The endpoint is registered, and the request to begin prompting is to
    /// be delivered.
    Beginning,
    /// The session is open: the process waits for the service to call back.
    Listening,
    /// The transport failed a step. The session was given up.
    Aborted(TransportError),
}

/// What a driver has to do to open the session.
#[derive(Debug)]
pub enum StartupEffect {
    /// Register the callback endpoint with the transport at `address`.
    Register { address: CallbackAddress },
    /// Send the call to the prompting service and wait for its delivery.
    Send(PrompterCall),
    /// Wait for inbound calls, with no limit of time.
    Listen,
    /// Leave the process with a failure status.
    Abort(TransportError),
}

/// What a `StartupEffect` says, over sequences of characters.
pub enum StartupEffectView {
    Register { address: Seq<char> },
    Send(PrompterCallView),
    Listen,
    Abort(TransportError),
}

impl View for StartupEffect {
    type V = StartupEffectView;

    open spec fn view(&self) -> StartupEffectView {
        match self {
            StartupEffect::Register { address } => StartupEffectView::Register {
                address: address@,
            },
            StartupEffect::Send(call) => StartupEffectView::Send(call@),
            StartupEffect::Listen => StartupEffectView::Listen,
            StartupEffect::Abort(error) => StartupEffectView::Abort(*error),
        }
    }
}

/// The opening of a session as the protocol sees it: the address of the
/// callback endpoint, and the phase.
pub struct Startup {
    pub callback_address: Seq<char>,
    pub phase: Phase,
}

impl Startup {
    /// The opening of a session for the endpoint at `callback_address`, with
    /// nothing done yet.
    pub open spec fn begin(callback_address: Seq<char>) -> Startup {
        Startup { callback_address, phase: Phase::Registering }
    }

    /// What the driver has to do in this phase.
    pub open spec fn pending(self) -> StartupEffectView {
        match self.phase {
            Phase::Registering => StartupEffectView::Register { address: self.callback_address },
            Phase::Beginning => StartupEffectView::Send(
                PrompterCallView::BeginPrompting { callback: self.callback_address },
            ),
            Phase::Listening => StartupEffectView::Listen,
            Phase::Aborted(error) => StartupEffectView::Abort(error),
        }
    }

    /// The phase after the transport has reported on the pending step. A step
    /// that was delivered leads to the next one. A step that failed ends the
    /// opening for good: no step is tried again. Once the session is open or
    /// given up, no step is pending, and a report changes nothing.
    pub open spec fn next_phase(phase: Phase, delivered: bool) -> Phase {
        match phase {
            Phase::Registering => if delivered {
                Phase::Beginning
            } else {
                Phase::Aborted(TransportError::Registration)
            },
            Phase::Beginning => if delivered {
                Phase::Listening
            } else {
                Phase::Aborted(TransportError::Delivery)
            },
            Phase::Listening => Phase::Listening,
            Phase::Aborted(error) => Phase::Aborted(error),
        }
    }

    /// The opening after the transport's report on the pending step.
    pub open spec fn reported(self, delivered: bool) -> Startup {
        Startup {
            callback_address: self.callback_address,
            phase: Self::next_phase(self.phase, delivered),
        }
    }
}

/// The session initiator of one callback endpoint.
#[derive(Debug)]
pub struct SessionInitiator {
    callback: CallbackAddress,
    phase: Phase,
}

impl View for SessionInitiator {
    type V = Startup;

    closed spec fn view(&self) -> Startup {
        Startup { callback_address: self.callback@, phase: self.phase }
    }
}

impl SessionInitiator {
    /// Starts to open the session of `callback`. The transport is connected
    /// by now; the endpoint's registration is the step that is pending.
    pub fn start_session(callback: &PrompterCallback) -> (initiator: Self)
        ensures
            initiator@ == Startup::begin(callback@.callback_address),
    {
        SessionInitiator { callback: callback.path().clone(), phase: Phase::Registering }
    }

    /// The phase that the opening has reached.
    pub fn phase(&self) -> (phase: Phase)
        ensures
            phase == self@.phase,
    {
        self.phase
    }

    /// What the driver has to do now.
    pub fn pending(&self) -> (effect: StartupEffect)
        ensures
            effect@ == self@.pending(),
    {
        match self.phase {
            Phase::Registering => StartupEffect::Register { address: self.callback.clone() },
            Phase::Beginning => StartupEffect::Send(
                PrompterCall::BeginPrompting { callback: self.callback.clone() },
            ),
            Phase::Listening => StartupEffect::Listen,
            Phase::Aborted(error) => StartupEffect::Abort(error),
        }
    }

    /// Takes the transport's report on the pending step: `delivered` says
    /// whether the step went through. Gives what the driver has to do next.
    pub fn report(&mut self, delivered: bool) -> (effect: StartupEffect)
        ensures
            final(self)@ == old(self)@.reported(delivered),
            effect@ == final(self)@.pending(),
    {
        self.phase =
        match self.phase {
            Phase::Registering => if delivered {
                Phase::Beginning
            } else {
                Phase::Aborted(TransportError::Registration)
            },
            Phase::Beginning => if delivered {
                Phase::Listening
            } else {
                Phase::Aborted(TransportError::Delivery)
            },
            Phase::Listening => Phase::Listening,
            Phase::Aborted(error) => Phase::Aborted(error),
        };
        self.pending()
    }
}

} // verus!
