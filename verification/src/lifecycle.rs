//! The surface lifecycle controller: a two-state machine that decides,
//! for every event the windowing toolkit delivers, whether the drawable
//! surface must be created or destroyed, whether the loop must exit, and
//! whether the event violates the toolkit's dispatch contract.

use vstd::prelude::*;

verus! {

/// Whether a drawable surface currently exists.
#[derive(PartialEq, Eq, Structural, Clone, Copy, Debug)]
pub enum SurfaceState {
    Absent,
    Present,
}

/// The event classes of the windowing toolkit's loop that the handler
/// recognizes. Everything else is mapped to `Other` by the caller.
#[derive(PartialEq, Eq, Structural, Clone, Copy, Debug)]
pub enum LifecycleEvent {
    Resumed,
    Suspended,
    CloseRequested,
    EscapePressed,
    RedrawRequested,
    LoopExiting,
    Other,
}

/// What the caller must do with the graphics backend after a step.
#[derive(PartialEq, Eq, Structural, Clone, Copy, Debug)]
pub enum SurfaceAction {
    /// Build a surface from the live window and hold it.
    CreateSurface,
    /// Destroy the held surface.
    DestroySurface,
    /// Ask the event loop to terminate.
    RequestExit,
    /// Nothing to do.
    NoOp,
}

/// An event arrived in a state the dispatch contract rules out. Such a
/// violation is fatal: the caller must abort rather than continue with a
/// stale or doubly-created handle.
#[derive(PartialEq, Eq, Structural, Clone, Copy, Debug)]
pub enum LifecycleError {
    /// `Resumed` was delivered while a surface already existed.
    ResumedWhilePresent,
    /// `Suspended` was delivered while no surface existed.
    SuspendedWhileAbsent,
}

/// The controller. At most one surface exists at any time: the surface
/// exists exactly when `state` is `Present`. Once an exit has been
/// requested, no event but the final `LoopExiting` cleanup changes the
/// surface state.
#[derive(PartialEq, Eq, Structural, Clone, Copy, Debug)]
pub struct SurfaceController {
    pub state: SurfaceState,
    pub exit_requested: bool,
}

impl SurfaceController {
    /// The state before the window was ever resumed.
    pub open spec fn initial() -> SurfaceController {
        SurfaceController { state: SurfaceState::Absent, exit_requested: false }
    }

    pub open spec fn surface_present(self) -> bool {
        self.state is Present
    }

    /// The transition function: the controller after the event, and the
    /// action owed for it (or the contract violation it constitutes).
    /// On a violation the controller is unchanged; the caller aborts.
    pub open spec fn spec_step(self, event: LifecycleEvent) -> (SurfaceController, Result<
        SurfaceAction,
        LifecycleError,
    >) {
        match event {
            LifecycleEvent::CloseRequested | LifecycleEvent::EscapePressed => (
                SurfaceController { exit_requested: true, ..self },
                Ok(SurfaceAction::RequestExit),
            ),
            LifecycleEvent::Resumed => if self.exit_requested {
                (self, Ok(SurfaceAction::NoOp))
            } else if self.state is Absent {
                (
                    SurfaceController { state: SurfaceState::Present, ..self },
                    Ok(SurfaceAction::CreateSurface),
                )
            } else {
                (self, Err(LifecycleError::ResumedWhilePresent))
            },
            LifecycleEvent::Suspended => if self.exit_requested {
                (self, Ok(SurfaceAction::NoOp))
            } else if self.state is Present {
                (
                    SurfaceController { state: SurfaceState::Absent, ..self },
                    Ok(SurfaceAction::DestroySurface),
                )
            } else {
                (self, Err(LifecycleError::SuspendedWhileAbsent))
            },
            LifecycleEvent::LoopExiting => if self.state is Present {
                (
                    SurfaceController { state: SurfaceState::Absent, ..self },
                    Ok(SurfaceAction::DestroySurface),
                )
            } else {
                (self, Ok(SurfaceAction::NoOp))
            },
            LifecycleEvent::RedrawRequested | LifecycleEvent::Other => (
                self,
                Ok(SurfaceAction::NoOp),
            ),
        }
    }

    /// A fresh controller: no surface, no exit requested.
    pub fn new() -> (c: SurfaceController)
        ensures
            c == SurfaceController::initial(),
    {
        SurfaceController { state: SurfaceState::Absent, exit_requested: false }
    }

    /// Advance the controller by one event and return the action owed.
    ///
    /// A `Resumed` event is valid only in `Absent` and a `Suspended`
    /// event only in `Present` (unless an exit was already requested, in
    /// which case both are ignored); any other delivery is a contract
    /// violation reported as `Err`, with the controller unchanged.
    /// `LoopExiting` never fails: it destroys the surface exactly when
    /// one is present.
    pub fn step(&mut self, event: LifecycleEvent) -> (r: Result<SurfaceAction, LifecycleError>)
        ensures
            (*final(self), r) == old(self).spec_step(event),
            r is Err <==> {
                &&& !old(self).exit_requested
                &&& {
                    ||| (event is Resumed && old(self).state is Present)
                    ||| (event is Suspended && old(self).state is Absent)
                }
            },
            r is Err ==> *final(self) == *old(self),
            event is LoopExiting ==> {
                &&& r is Ok
                &&& final(self).state is Absent
                &&& (r == Ok::<SurfaceAction, LifecycleError>(SurfaceAction::DestroySurface)
                    <==> old(self).state is Present)
            },
            r == Ok::<SurfaceAction, LifecycleError>(SurfaceAction::CreateSurface) ==> (old(
                self,
            ).state is Absent && final(self).state is Present),
            r == Ok::<SurfaceAction, LifecycleError>(SurfaceAction::DestroySurface) ==> (old(
                self,
            ).state is Present && final(self).state is Absent),
            (r == Ok::<SurfaceAction, LifecycleError>(SurfaceAction::NoOp) || r == Ok::<
                SurfaceAction,
                LifecycleError,
            >(SurfaceAction::RequestExit)) ==> final(self).state == old(self).state,
    {
        match event {
            LifecycleEvent::CloseRequested | LifecycleEvent::EscapePressed => {
                self.exit_requested = true;
                Ok(SurfaceAction::RequestExit)
            },
            LifecycleEvent::Resumed => {
                if self.exit_requested {
                    Ok(SurfaceAction::NoOp)
                } else if self.state == SurfaceState::Absent {
                    self.state = SurfaceState::Present;
                    Ok(SurfaceAction::CreateSurface)
                } else {
                    Err(LifecycleError::ResumedWhilePresent)
                }
            },
            LifecycleEvent::Suspended => {
                if self.exit_requested {
                    Ok(SurfaceAction::NoOp)
                } else if self.state == SurfaceState::Present {
                    self.state = SurfaceState::Absent;
                    Ok(SurfaceAction::DestroySurface)
                } else {
                    Err(LifecycleError::SuspendedWhileAbsent)
                }
            },
            LifecycleEvent::LoopExiting => {
                if self.state == SurfaceState::Present {
                    self.state = SurfaceState::Absent;
                    Ok(SurfaceAction::DestroySurface)
                } else {
                    Ok(SurfaceAction::NoOp)
                }
            },
            LifecycleEvent::RedrawRequested | LifecycleEvent::Other => Ok(SurfaceAction::NoOp),
        }
    }
}

/// The controller after a whole event sequence, starting from `c`.
/// A step that is a contract violation leaves the controller unchanged,
/// as `spec_step` does.
pub open spec fn run_from(c: SurfaceController, events: Seq<LifecycleEvent>) -> SurfaceController
    decreases events.len(),
{
    if events.len() == 0 {
        c
    } else {
        run_from(c.spec_step(events[0]).0, events.drop_first())
    }
}

/// How many steps of the sequence, run from `c`, owe a surface creation.
pub open spec fn creates_in(c: SurfaceController, events: Seq<LifecycleEvent>) -> nat
    decreases events.len(),
{
    if events.len() == 0 {
        0
    } else {
        (if c.spec_step(events[0]).1 == Ok::<SurfaceAction, LifecycleError>(
            SurfaceAction::CreateSurface,
        ) {
            1nat
        } else {
            0nat
        }) + creates_in(c.spec_step(events[0]).0, events.drop_first())
    }
}

/// How many steps of the sequence, run from `c`, owe a surface destruction.
pub open spec fn destroys_in(c: SurfaceController, events: Seq<LifecycleEvent>) -> nat
    decreases events.len(),
{
    if events.len() == 0 {
        0
    } else {
        (if c.spec_step(events[0]).1 == Ok::<SurfaceAction, LifecycleError>(
            SurfaceAction::DestroySurface,
        ) {
            1nat
        } else {
            0nat
        }) + destroys_in(c.spec_step(events[0]).0, events.drop_first())
    }
}

pub open spec fn present_count(c: SurfaceController) -> nat {
    if c.surface_present() {
        1
    } else {
        0
    }
}

/// Surface balance: across any event sequence, the number of creations
/// owed minus the number of destructions owed equals the change in
/// surface presence. In particular a surface is never doubly created
/// nor doubly destroyed.
pub proof fn lemma_surface_balance(c: SurfaceController, events: Seq<LifecycleEvent>)
    ensures
        creates_in(c, events) + present_count(c) == destroys_in(c, events) + present_count(
            run_from(c, events),
        ),
    decreases events.len(),
{
    if events.len() > 0 {
        lemma_surface_balance(c.spec_step(events[0]).0, events.drop_first());
    }
}

/// From a fresh controller, every event sequence owes exactly as many
/// destructions as creations when it ends with no surface, and one
/// fewer when a surface is still present: at most one surface exists
/// at any time, and none leaks past its destruction.
pub proof fn lemma_at_most_one_surface(events: Seq<LifecycleEvent>)
    ensures
        creates_in(SurfaceController::initial(), events) == destroys_in(
            SurfaceController::initial(),
            events,
        ) + present_count(run_from(SurfaceController::initial(), events)),
{
    lemma_surface_balance(SurfaceController::initial(), events);
}

} // verus!
