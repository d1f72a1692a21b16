use vstd::prelude::*;

verus! {

/// Where bringing up a GPU context failed. Each is fatal to the canvas:
/// nothing is retried.
#[derive(Clone, Copy, Debug, PartialEq, Eq)]
pub enum InitFailure {
    /// No surface could be created on the drawable.
    Surface,
    /// No adapter compatible with the surface was found.
    Adapter,
    /// The adapter would not give a device and queue.
    Device,
}

/// The phases of bringing up a GPU context for one canvas.
#[derive(Clone, Copy, Debug, PartialEq, Eq)]
pub enum SessionPhase {
    /// Nothing has been asked yet.
    Uninitialized,
    /// The surface exists; an adapter is being negotiated.
    AwaitingAdapter,
    /// An adapter was found; a device is being negotiated.
    AwaitingDevice,
    /// The surface is configured; frames may be rendered.
    Ready,
    /// Initialisation stopped for good.
    Failed(InitFailure),
}

/// The outcome of one step of bringing up the context, as the host saw it.
#[derive(Clone, Copy, Debug, PartialEq, Eq)]
pub enum SessionEvent {
    SurfaceCreated(bool),
    AdapterFound(bool),
    DeviceCreated(bool),
}

/// What the host does next.
#[derive(Clone, Copy, Debug, PartialEq, Eq)]
pub enum SessionAction {
    /// Ask for an adapter compatible with the surface, without fallback.
    RequestAdapter,
    /// Ask for a device with no optional features and baseline limits.
    RequestDevice,
    /// Choose the format and configure the surface; rendering may start.
    ConfigureSurface,
    /// Give up on this canvas, reporting where it failed.
    Abort(InitFailure),
    /// The event did not belong to the current phase: nothing to do.
    Ignore,
}

impl SessionPhase {
    /// Whether no event changes the phase any more.
    pub open spec fn is_final(self) -> bool {
        self is Ready || self is Failed
    }

    /// The phase and the host's next action after `e`.
    pub open spec fn stepped(self, e: SessionEvent) -> (SessionPhase, SessionAction) {
        match (self, e) {
            (SessionPhase::Uninitialized, SessionEvent::SurfaceCreated(ok)) => if ok {
                (SessionPhase::AwaitingAdapter, SessionAction::RequestAdapter)
            } else {
                (
                    SessionPhase::Failed(InitFailure::Surface),
                    SessionAction::Abort(InitFailure::Surface),
                )
            },
            (SessionPhase::AwaitingAdapter, SessionEvent::AdapterFound(ok)) => if ok {
                (SessionPhase::AwaitingDevice, SessionAction::RequestDevice)
            } else {
                (
                    SessionPhase::Failed(InitFailure::Adapter),
                    SessionAction::Abort(InitFailure::Adapter),
                )
            },
            (SessionPhase::AwaitingDevice, SessionEvent::DeviceCreated(ok)) => if ok {
                (SessionPhase::Ready, SessionAction::ConfigureSurface)
            } else {
                (
                    SessionPhase::Failed(InitFailure::Device),
                    SessionAction::Abort(InitFailure::Device),
                )
            },
            _ => (self, SessionAction::Ignore),
        }
    }

    /// The phase after a sequence of events, first to last.
    pub open spec fn after_all(self, events: Seq<SessionEvent>) -> SessionPhase
        decreases events.len(),
    {
        if events.len() == 0 {
            self
        } else {
            self.stepped(events[0]).0.after_all(events.subrange(1, events.len() as int))
        }
    }

    /// A context not yet asked for.
    pub fn new() -> (r: SessionPhase)
        ensures
            r == SessionPhase::Uninitialized,
    {
        SessionPhase::Uninitialized
    }

    /// Takes in the outcome of the step the host just finished and returns
    /// what it does next.
    pub fn advance(&mut self, e: SessionEvent) -> (r: SessionAction)
        ensures
            (*final(self), r) == old(self).stepped(e),
    {
        let (next, action) = match (*self, e) {
            (SessionPhase::Uninitialized, SessionEvent::SurfaceCreated(ok)) => if ok {
                (SessionPhase::AwaitingAdapter, SessionAction::RequestAdapter)
            } else {
                (
                    SessionPhase::Failed(InitFailure::Surface),
                    SessionAction::Abort(InitFailure::Surface),
                )
            },
            (SessionPhase::AwaitingAdapter, SessionEvent::AdapterFound(ok)) => if ok {
                (SessionPhase::AwaitingDevice, SessionAction::RequestDevice)
            } else {
                (
                    SessionPhase::Failed(InitFailure::Adapter),
                    SessionAction::Abort(InitFailure::Adapter),
                )
            },
            (SessionPhase::AwaitingDevice, SessionEvent::DeviceCreated(ok)) => if ok {
                (SessionPhase::Ready, SessionAction::ConfigureSurface)
            } else {
                (
                    SessionPhase::Failed(InitFailure::Device),
                    SessionAction::Abort(InitFailure::Device),
                )
            },
            (phase, _) => (phase, SessionAction::Ignore),
        };
        *self = next;
        action
    }

    /// Whether frames may be rendered.
    pub fn is_ready(&self) -> (r: bool)
        ensures
            r == (*self is Ready),
    {
        match self {
            SessionPhase::Ready => true,
            _ => false,
        }
    }
}

/// Once initialisation is over, successful or not, no event changes the
/// phase: a failed canvas is never retried and a ready one stays ready.
pub proof fn lemma_final_phase_stays(p: SessionPhase, events: Seq<SessionEvent>)
    requires
        p.is_final(),
    ensures
        p.after_all(events) == p,
    decreases events.len(),
{
    if events.len() > 0 {
        lemma_final_phase_stays(p.stepped(events[0]).0, events.subrange(1, events.len() as int));
    }
}

} // verus!
