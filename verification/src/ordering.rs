//! Acquisition and release ordering of the backend resources. The
//! instance must outlive the debug messenger and every surface:
//! construction goes instance first, and teardown goes surface, then
//! messenger, then instance. The ledger admits a backend call exactly
//! when that discipline allows it, and the lemmas below state the
//! ordering that every admitted call trace obeys.

use vstd::prelude::*;
use crate::lifecycle::{run_from, LifecycleEvent, LifecycleError, SurfaceAction, SurfaceController};

verus! {

/// The create/destroy entry points of the graphics backend whose order
/// the ledger tracks.
#[derive(PartialEq, Eq, Structural, Clone, Copy, Debug)]
pub enum BackendCall {
    CreateInstance,
    CreateMessenger,
    CreateSurface,
    DestroySurface,
    DestroyMessenger,
    DestroyInstance,
}

/// Which backend resources are currently alive. Well-formed ledgers
/// never hold a messenger or a surface without the instance.
#[derive(PartialEq, Eq, Structural, Clone, Copy, Debug)]
pub struct ResourceLedger {
    pub instance_live: bool,
    pub messenger_live: bool,
    pub surface_live: bool,
}

impl ResourceLedger {
    /// Before any backend call: nothing is alive.
    pub open spec fn initial() -> ResourceLedger {
        ResourceLedger { instance_live: false, messenger_live: false, surface_live: false }
    }

    pub open spec fn wf(self) -> bool {
        (self.messenger_live || self.surface_live) ==> self.instance_live
    }

    /// Whether the ordering discipline allows the call now: a resource
    /// is created only once and only while the instance is alive, and
    /// the instance is released only after the messenger and the
    /// surface, the messenger only after the surface.
    pub open spec fn admits(self, call: BackendCall) -> bool {
        match call {
            BackendCall::CreateInstance => !self.instance_live && !self.messenger_live
                && !self.surface_live,
            BackendCall::CreateMessenger => self.instance_live && !self.messenger_live,
            BackendCall::CreateSurface => self.instance_live && !self.surface_live,
            BackendCall::DestroySurface => self.surface_live,
            BackendCall::DestroyMessenger => self.messenger_live && !self.surface_live,
            BackendCall::DestroyInstance => self.instance_live && !self.messenger_live
                && !self.surface_live,
        }
    }

    /// The ledger after the call. Each call toggles the liveness of the
    /// one resource it names and touches nothing else.
    pub open spec fn next(self, call: BackendCall) -> ResourceLedger {
        match call {
            BackendCall::CreateInstance => ResourceLedger { instance_live: true, ..self },
            BackendCall::CreateMessenger => ResourceLedger { messenger_live: true, ..self },
            BackendCall::CreateSurface => ResourceLedger { surface_live: true, ..self },
            BackendCall::DestroySurface => ResourceLedger { surface_live: false, ..self },
            BackendCall::DestroyMessenger => ResourceLedger { messenger_live: false, ..self },
            BackendCall::DestroyInstance => ResourceLedger { instance_live: false, ..self },
        }
    }

    /// A fresh ledger with nothing alive.
    pub fn new() -> (l: ResourceLedger)
        ensures
            l == ResourceLedger::initial(),
    {
        ResourceLedger { instance_live: false, messenger_live: false, surface_live: false }
    }

    /// Record a backend call. Returns whether the ordering discipline
    /// admits it; an admitted call updates the ledger, a refused one is
    /// a programming error and leaves the ledger unchanged so that the
    /// caller can abort.
    pub fn record(&mut self, call: BackendCall) -> (ok: bool)
        ensures
            ok == old(self).admits(call),
            ok ==> *final(self) == old(self).next(call),
            !ok ==> *final(self) == *old(self),
            old(self).wf() ==> final(self).wf(),
    {
        let admitted = match call {
            BackendCall::CreateInstance => !self.instance_live && !self.messenger_live
                && !self.surface_live,
            BackendCall::CreateMessenger => self.instance_live && !self.messenger_live,
            BackendCall::CreateSurface => self.instance_live && !self.surface_live,
            BackendCall::DestroySurface => self.surface_live,
            BackendCall::DestroyMessenger => self.messenger_live && !self.surface_live,
            BackendCall::DestroyInstance => self.instance_live && !self.messenger_live
                && !self.surface_live,
        };
        if admitted {
            match call {
                BackendCall::CreateInstance => self.instance_live = true,
                BackendCall::CreateMessenger => self.messenger_live = true,
                BackendCall::CreateSurface => self.surface_live = true,
                BackendCall::DestroySurface => self.surface_live = false,
                BackendCall::DestroyMessenger => self.messenger_live = false,
                BackendCall::DestroyInstance => self.instance_live = false,
            }
        }
        admitted
    }
}

/// The ledger after the whole call sequence, applied from `l`.
pub open spec fn ledger_run(l: ResourceLedger, calls: Seq<BackendCall>) -> ResourceLedger
    decreases calls.len(),
{
    if calls.len() == 0 {
        l
    } else {
        ledger_run(l.next(calls[0]), calls.drop_first())
    }
}

/// Every call of the sequence is admitted by the ledger it meets.
pub open spec fn valid_from(l: ResourceLedger, calls: Seq<BackendCall>) -> bool
    decreases calls.len(),
{
    calls.len() == 0 || (l.admits(calls[0]) && valid_from(l.next(calls[0]), calls.drop_first()))
}

/// A call trace of a whole run: every call admitted, starting from
/// nothing alive.
pub open spec fn valid_trace(calls: Seq<BackendCall>) -> bool {
    valid_from(ResourceLedger::initial(), calls)
}

/// Running a concatenation runs the two parts in turn.
proof fn lemma_run_append(l: ResourceLedger, a: Seq<BackendCall>, b: Seq<BackendCall>)
    ensures
        ledger_run(l, a + b) == ledger_run(ledger_run(l, a), b),
    decreases a.len(),
{
    if a.len() == 0 {
        assert(a + b =~= b);
    } else {
        assert((a + b).drop_first() =~= a.drop_first() + b);
        lemma_run_append(l.next(a[0]), a.drop_first(), b);
    }
}

/// Running a single call applies it once.
proof fn lemma_run_one(l: ResourceLedger, c: BackendCall)
    ensures
        ledger_run(l, seq![c]) == l.next(c),
{
    assert(seq![c].drop_first() =~= Seq::<BackendCall>::empty());
    assert(ledger_run(l, seq![c]) == ledger_run(l.next(seq![c][0]), seq![c].drop_first()));
    assert(ledger_run(l.next(c), Seq::<BackendCall>::empty()) == l.next(c));
}

/// In a valid run, each call is admitted by the ledger that the calls
/// before it produce.
proof fn lemma_valid_index(l: ResourceLedger, calls: Seq<BackendCall>, i: int)
    requires
        valid_from(l, calls),
        0 <= i < calls.len(),
    ensures
        ledger_run(l, calls.take(i)).admits(calls[i]),
    decreases i,
{
    if i == 0 {
        assert(calls.take(0) =~= Seq::<BackendCall>::empty());
    } else {
        lemma_valid_index(l.next(calls[0]), calls.drop_first(), i - 1);
        assert(calls.drop_first().take(i - 1) =~= calls.take(i).drop_first());
        assert(ledger_run(l, calls.take(i)) == ledger_run(
            l.next(calls.take(i)[0]),
            calls.take(i).drop_first(),
        ));
        assert(calls.drop_first()[i - 1] == calls[i]);
    }
}

/// The instance can only come alive through a `CreateInstance` call.
proof fn lemma_instance_became_live(l: ResourceLedger, calls: Seq<BackendCall>)
    requires
        !l.instance_live,
        ledger_run(l, calls).instance_live,
    ensures
        exists|k: int| 0 <= k < calls.len() && calls[k] == BackendCall::CreateInstance,
    decreases calls.len(),
{
    if calls.len() > 0 {
        if calls[0] == BackendCall::CreateInstance {
            assert(calls[0] == BackendCall::CreateInstance);
        } else {
            lemma_instance_became_live(l.next(calls[0]), calls.drop_first());
            let k0 = choose|k: int|
                0 <= k < calls.drop_first().len() && calls.drop_first()[k]
                    == BackendCall::CreateInstance;
            assert(calls[k0 + 1] == BackendCall::CreateInstance);
        }
    }
}

/// The surface can only die through a `DestroySurface` call.
proof fn lemma_surface_became_dead(l: ResourceLedger, calls: Seq<BackendCall>)
    requires
        l.surface_live,
        !ledger_run(l, calls).surface_live,
    ensures
        exists|k: int| 0 <= k < calls.len() && calls[k] == BackendCall::DestroySurface,
    decreases calls.len(),
{
    if calls.len() > 0 {
        if calls[0] == BackendCall::DestroySurface {
            assert(calls[0] == BackendCall::DestroySurface);
        } else {
            lemma_surface_became_dead(l.next(calls[0]), calls.drop_first());
            let k0 = choose|k: int|
                0 <= k < calls.drop_first().len() && calls.drop_first()[k]
                    == BackendCall::DestroySurface;
            assert(calls[k0 + 1] == BackendCall::DestroySurface);
        }
    }
}

/// The messenger can only die through a `DestroyMessenger` call.
proof fn lemma_messenger_became_dead(l: ResourceLedger, calls: Seq<BackendCall>)
    requires
        l.messenger_live,
        !ledger_run(l, calls).messenger_live,
    ensures
        exists|k: int| 0 <= k < calls.len() && calls[k] == BackendCall::DestroyMessenger,
    decreases calls.len(),
{
    if calls.len() > 0 {
        if calls[0] == BackendCall::DestroyMessenger {
            assert(calls[0] == BackendCall::DestroyMessenger);
        } else {
            lemma_messenger_became_dead(l.next(calls[0]), calls.drop_first());
            let k0 = choose|k: int|
                0 <= k < calls.drop_first().len() && calls.drop_first()[k]
                    == BackendCall::DestroyMessenger;
            assert(calls[k0 + 1] == BackendCall::DestroyMessenger);
        }
    }
}

/// Construction order: in every valid trace, an instance creation
/// stands before each messenger or surface creation.
pub proof fn lemma_instance_precedes_dependents(calls: Seq<BackendCall>, i: int)
    requires
        valid_trace(calls),
        0 <= i < calls.len(),
        calls[i] == BackendCall::CreateMessenger || calls[i] == BackendCall::CreateSurface,
    ensures
        exists|j: int| 0 <= j < i && calls[j] == BackendCall::CreateInstance,
{
    lemma_valid_index(ResourceLedger::initial(), calls, i);
    lemma_instance_became_live(ResourceLedger::initial(), calls.take(i));
    let pre = calls.take(i);
    let k = choose|k: int| 0 <= k < pre.len() && pre[k] == BackendCall::CreateInstance;
    assert(calls[k] == BackendCall::CreateInstance);
}

/// Teardown order, surface before messenger: in every valid trace, a
/// surface created before a messenger destruction is itself destroyed
/// in between.
pub proof fn lemma_surface_destroyed_before_messenger(calls: Seq<BackendCall>, i: int, j: int)
    requires
        valid_trace(calls),
        0 <= i < j < calls.len(),
        calls[i] == BackendCall::CreateSurface,
        calls[j] == BackendCall::DestroyMessenger,
    ensures
        exists|k: int| i < k < j && calls[k] == BackendCall::DestroySurface,
{
    lemma_valid_index(ResourceLedger::initial(), calls, i);
    lemma_valid_index(ResourceLedger::initial(), calls, j);
    let before = ledger_run(ResourceLedger::initial(), calls.take(i));
    let mid = ledger_run(ResourceLedger::initial(), calls.take(i + 1));
    assert(calls.take(i + 1) =~= calls.take(i) + seq![calls[i]]);
    lemma_run_append(ResourceLedger::initial(), calls.take(i), seq![calls[i]]);
    lemma_run_one(before, calls[i]);
    assert(mid == before.next(calls[i]));
    assert(mid.surface_live);
    assert(calls.take(j) =~= calls.take(i + 1) + calls.subrange(i + 1, j));
    lemma_run_append(ResourceLedger::initial(), calls.take(i + 1), calls.subrange(i + 1, j));
    lemma_surface_became_dead(mid, calls.subrange(i + 1, j));
    let sub = calls.subrange(i + 1, j);
    let k0 = choose|k: int| 0 <= k < sub.len() && sub[k] == BackendCall::DestroySurface;
    assert(calls[k0 + i + 1] == BackendCall::DestroySurface);
}

/// Teardown order, messenger before instance: in every valid trace, a
/// messenger created before an instance destruction is itself destroyed
/// in between.
pub proof fn lemma_messenger_destroyed_before_instance(calls: Seq<BackendCall>, i: int, j: int)
    requires
        valid_trace(calls),
        0 <= i < j < calls.len(),
        calls[i] == BackendCall::CreateMessenger,
        calls[j] == BackendCall::DestroyInstance,
    ensures
        exists|k: int| i < k < j && calls[k] == BackendCall::DestroyMessenger,
{
    lemma_valid_index(ResourceLedger::initial(), calls, i);
    lemma_valid_index(ResourceLedger::initial(), calls, j);
    let before = ledger_run(ResourceLedger::initial(), calls.take(i));
    let mid = ledger_run(ResourceLedger::initial(), calls.take(i + 1));
    assert(calls.take(i + 1) =~= calls.take(i) + seq![calls[i]]);
    lemma_run_append(ResourceLedger::initial(), calls.take(i), seq![calls[i]]);
    lemma_run_one(before, calls[i]);
    assert(mid == before.next(calls[i]));
    assert(mid.messenger_live);
    assert(calls.take(j) =~= calls.take(i + 1) + calls.subrange(i + 1, j));
    lemma_run_append(ResourceLedger::initial(), calls.take(i + 1), calls.subrange(i + 1, j));
    lemma_messenger_became_dead(mid, calls.subrange(i + 1, j));
    let sub = calls.subrange(i + 1, j);
    let k0 = choose|k: int| 0 <= k < sub.len() && sub[k] == BackendCall::DestroyMessenger;
    assert(calls[k0 + i + 1] == BackendCall::DestroyMessenger);
}


/// Teardown order, surface before instance: in every valid trace, a
/// surface created before an instance destruction is itself destroyed
/// in between.
pub proof fn lemma_surface_destroyed_before_instance(calls: Seq<BackendCall>, i: int, j: int)
    requires
        valid_trace(calls),
        0 <= i < j < calls.len(),
        calls[i] == BackendCall::CreateSurface,
        calls[j] == BackendCall::DestroyInstance,
    ensures
        exists|k: int| i < k < j && calls[k] == BackendCall::DestroySurface,
{
    lemma_valid_index(ResourceLedger::initial(), calls, i);
    lemma_valid_index(ResourceLedger::initial(), calls, j);
    let before = ledger_run(ResourceLedger::initial(), calls.take(i));
    let mid = ledger_run(ResourceLedger::initial(), calls.take(i + 1));
    assert(calls.take(i + 1) =~= calls.take(i) + seq![calls[i]]);
    lemma_run_append(ResourceLedger::initial(), calls.take(i), seq![calls[i]]);
    lemma_run_one(before, calls[i]);
    assert(mid == before.next(calls[i]));
    assert(mid.surface_live);
    assert(calls.take(j) =~= calls.take(i + 1) + calls.subrange(i + 1, j));
    lemma_run_append(ResourceLedger::initial(), calls.take(i + 1), calls.subrange(i + 1, j));
    lemma_surface_became_dead(mid, calls.subrange(i + 1, j));
    let sub = calls.subrange(i + 1, j);
    let k0 = choose|k: int| 0 <= k < sub.len() && sub[k] == BackendCall::DestroySurface;
    assert(calls[k0 + i + 1] == BackendCall::DestroySurface);
}

/// The backend calls that the surface controller owes for an event
/// sequence: one `CreateSurface` or `DestroySurface` per step that
/// returns that action, in dispatch order.
pub open spec fn surface_calls_from(c: SurfaceController, events: Seq<LifecycleEvent>) -> Seq<
    BackendCall,
>
    decreases events.len(),
{
    if events.len() == 0 {
        Seq::<BackendCall>::empty()
    } else {
        let head: Seq<BackendCall> = if c.spec_step(events[0]).1 == Ok::<
            SurfaceAction,
            LifecycleError,
        >(SurfaceAction::CreateSurface) {
            seq![BackendCall::CreateSurface]
        } else if c.spec_step(events[0]).1 == Ok::<SurfaceAction, LifecycleError>(
            SurfaceAction::DestroySurface,
        ) {
            seq![BackendCall::DestroySurface]
        } else {
            Seq::<BackendCall>::empty()
        };
        head + surface_calls_from(c.spec_step(events[0]).0, events.drop_first())
    }
}

/// The controller never drives the backend out of order: with the
/// instance alive and the ledger agreeing with the controller on
/// whether a surface exists, every surface call the controller owes
/// for any event sequence is admitted by the ledger, the agreement is
/// preserved, and the instance and messenger are untouched.
pub proof fn lemma_controller_calls_admitted(
    l: ResourceLedger,
    c: SurfaceController,
    events: Seq<LifecycleEvent>,
)
    requires
        l.instance_live,
        l.surface_live == c.surface_present(),
    ensures
        valid_from(l, surface_calls_from(c, events)),
        ledger_run(l, surface_calls_from(c, events)).surface_live == run_from(
            c,
            events,
        ).surface_present(),
        ledger_run(l, surface_calls_from(c, events)).instance_live == l.instance_live,
        ledger_run(l, surface_calls_from(c, events)).messenger_live == l.messenger_live,
    decreases events.len(),
{
    if events.len() > 0 {
        let step = c.spec_step(events[0]);
        let rest = surface_calls_from(step.0, events.drop_first());
        if step.1 == Ok::<SurfaceAction, LifecycleError>(SurfaceAction::CreateSurface) {
            let l1 = l.next(BackendCall::CreateSurface);
            lemma_controller_calls_admitted(l1, step.0, events.drop_first());
            assert(surface_calls_from(c, events) == seq![BackendCall::CreateSurface] + rest);
            assert((seq![BackendCall::CreateSurface] + rest)[0] == BackendCall::CreateSurface);
            assert((seq![BackendCall::CreateSurface] + rest).drop_first() =~= rest);
        } else if step.1 == Ok::<SurfaceAction, LifecycleError>(SurfaceAction::DestroySurface) {
            let l1 = l.next(BackendCall::DestroySurface);
            lemma_controller_calls_admitted(l1, step.0, events.drop_first());
            assert(surface_calls_from(c, events) == seq![BackendCall::DestroySurface] + rest);
            assert((seq![BackendCall::DestroySurface] + rest)[0] == BackendCall::DestroySurface);
            assert((seq![BackendCall::DestroySurface] + rest).drop_first() =~= rest);
        } else {
            lemma_controller_calls_admitted(l, step.0, events.drop_first());
            assert(surface_calls_from(c, events) =~= rest);
        }
    }
}

} // verus!
