//! Session lifecycle: Idle, then Starting while negotiating, then Running.
use vstd::prelude::*;

use crate::pipeline::{
    build_locked_pipeline,
    pipeline_violation,
    HostCapability,
    PipelineDescriptor,
    PipelineError,
};
use crate::profile::RuntimeProfile;

verus! {

/// Lifecycle state of the session.
#[derive(Debug, Clone, Copy, PartialEq, Eq, Structural)]
pub enum SessionState {
    Idle,
    Starting,
    Running,
}

impl Default for SessionState {
    fn default() -> (r: Self)
        ensures
            r == SessionState::Idle,
    {
        SessionState::Idle
    }
}

/// What a successful start hands back.
#[derive(Debug, PartialEq, Eq)]
pub struct SessionStarted {
    pub pipeline: PipelineDescriptor,
}

impl Clone for SessionStarted {
    fn clone(&self) -> (r: Self)
        ensures
            r == *self,
    {
        SessionStarted { pipeline: self.pipeline.clone() }
    }
}

/// Why a start was refused.
#[derive(Debug, Clone, Copy, PartialEq, Eq, Structural)]
pub enum SessionError {
    InvalidTransition(SessionState, SessionState),
    Pipeline(PipelineError),
}

/// State the session is in after a start request made in `current`.
pub open spec fn state_after_start(
    current: SessionState,
    profile: RuntimeProfile,
    capability: HostCapability,
) -> SessionState {
    if current != SessionState::Idle {
        current
    } else if pipeline_violation(profile, capability) is Some {
        SessionState::Idle
    } else {
        SessionState::Running
    }
}

/// The error a start request made in `current` fails with, if it fails.
pub open spec fn start_error(
    current: SessionState,
    profile: RuntimeProfile,
    capability: HostCapability,
) -> Option<SessionError> {
    if current != SessionState::Idle {
        Some(SessionError::InvalidTransition(current, SessionState::Starting))
    } else {
        match pipeline_violation(profile, capability) {
            Some(e) => Some(SessionError::Pipeline(e)),
            None => None,
        }
    }
}

/// State the session is in after a stop request made in `current`.
pub open spec fn state_after_stop(current: SessionState) -> SessionState {
    SessionState::Idle
}

/// Owner of the one session of the process.
#[derive(Debug)]
pub struct SessionManager {
    state: SessionState,
    active: Option<SessionStarted>,
}

impl Default for SessionManager {
    fn default() -> (r: Self)
        ensures
            r.spec_state() == SessionState::Idle,
            r.spec_active() is None,
    {
        SessionManager::new()
    }
}

impl SessionManager {
    pub closed spec fn spec_state(&self) -> SessionState {
        self.state
    }

    pub closed spec fn spec_active(&self) -> Option<SessionStarted> {
        self.active
    }

    /// The descriptor is held exactly while the session runs.
    #[verifier::type_invariant]
    closed spec fn wf(&self) -> bool {
        self.active is Some <==> self.state == SessionState::Running
    }

    /// Whether a descriptor is held exactly while the session runs.
    pub open spec fn holds_descriptor_iff_running(&self) -> bool {
        self.spec_active() is Some <==> self.spec_state() == SessionState::Running
    }

    pub fn new() -> (r: Self)
        ensures
            r.spec_state() == SessionState::Idle,
            r.spec_active() is None,
    {
        SessionManager { state: SessionState::Idle, active: None }
    }

    pub fn state(&self) -> (r: SessionState)
        ensures
            r == self.spec_state(),
            self.holds_descriptor_iff_running(),
    {
        proof {
            use_type_invariant(self);
        }
        self.state
    }

    /// The descriptor of the running session, if any.
    pub fn active(&self) -> (r: &Option<SessionStarted>)
        ensures
            *r == self.spec_active(),
    {
        &self.active
    }

    /// Starts a session from Idle: negotiates `profile` against `capability`
    /// and, on success, holds the descriptor and runs. Any failure leaves the
    /// manager as it was.
    pub fn start(&mut self, profile: RuntimeProfile, capability: HostCapability) -> (r: Result<
        SessionStarted,
        SessionError,
    >)
        ensures
            final(self).holds_descriptor_iff_running(),
            final(self).spec_state() == state_after_start(
                old(self).spec_state(),
                profile,
                capability,
            ),
            match start_error(old(self).spec_state(), profile, capability) {
                Some(e) => r == Err::<SessionStarted, SessionError>(e),
                None => r is Ok,
            },
            old(self).spec_state() != SessionState::Idle ==> {
                &&& r == Err::<SessionStarted, SessionError>(
                    SessionError::InvalidTransition(old(self).spec_state(), SessionState::Starting),
                )
                &&& final(self).spec_state() == old(self).spec_state()
                &&& final(self).spec_active() == old(self).spec_active()
            },
            old(self).spec_state() == SessionState::Idle ==> match pipeline_violation(
                profile,
                capability,
            ) {
                Some(e) => {
                    &&& r == Err::<SessionStarted, SessionError>(SessionError::Pipeline(e))
                    &&& final(self).spec_state() == SessionState::Idle
                    &&& final(self).spec_active() is None
                },
                None => {
                    &&& r is Ok
                    &&& r->Ok_0.pipeline.describes(profile)
                    &&& final(self).spec_state() == SessionState::Running
                    &&& final(self).spec_active() == Some(r->Ok_0)
                },
            },
    {
        proof {
            use_type_invariant(&*self);
        }
        if self.state != SessionState::Idle {
            return Err(SessionError::InvalidTransition(self.state, SessionState::Starting));
        }
        self.state = SessionState::Starting;
        let pipeline = match build_locked_pipeline(&profile, &capability) {
            Ok(pipeline) => pipeline,
            Err(err) => {
                self.state = SessionState::Idle;
                return Err(SessionError::Pipeline(err));
            },
        };
        let started = SessionStarted { pipeline };
        *self = SessionManager { state: SessionState::Running, active: Some(started.clone()) };
        Ok(started)
    }

    /// Drops any active descriptor and returns to Idle; never fails.
    pub fn stop(&mut self)
        ensures
            final(self).holds_descriptor_iff_running(),
            final(self).spec_state() == state_after_stop(old(self).spec_state()),
            final(self).spec_active() is None,
    {
        *self = SessionManager { state: SessionState::Idle, active: None };
    }
}

} // verus!

verus! {

/// From Idle, a start whose negotiation fails leaves the session Idle with a
/// pipeline error; one whose negotiation succeeds runs the session, and its
/// descriptor carries the requested fps and codec. A stop from any state
/// returns to Idle.
pub proof fn lemma_session_lifecycle(
    profile: RuntimeProfile,
    capability: HostCapability,
    current: SessionState,
    started: SessionStarted,
)
    ensures
        pipeline_violation(profile, capability) is Some ==> {
            &&& state_after_start(SessionState::Idle, profile, capability) == SessionState::Idle
            &&& start_error(SessionState::Idle, profile, capability) == Some(
                SessionError::Pipeline(pipeline_violation(profile, capability)->Some_0),
            )
        },
        pipeline_violation(profile, capability) is None ==> {
            &&& state_after_start(SessionState::Idle, profile, capability)
                == SessionState::Running
            &&& start_error(SessionState::Idle, profile, capability) is None
        },
        started.pipeline.describes(profile) ==> started.pipeline.capture.fps == profile.fps
            && started.pipeline.encoder.codec == profile.codec,
        state_after_stop(current) == SessionState::Idle,
{
}

} // verus!
