//! The lifecycle supervisor: a state machine sequencing session binding, the
//! user's startup callback, the polling loop raced against an external
//! interrupt, and the unconditional release of the session.
//!
//! The surrounding runtime drives the machine: it performs the action each
//! phase calls for, feeds the outcome back as an event, and repeats until the
//! machine reports that it is done. The machine itself guarantees that the
//! release step is reached exactly once along every complete run, whichever
//! way linking, startup, and the loop turn out.

use vstd::prelude::*;

verus! {

/// The phases of the agent's lifecycle, in the order they can be entered.
#[derive(Clone, Copy, Debug, PartialEq, Eq, Structural)]
pub enum Phase {
    Idle,
    Linking,
    Linked,
    LinkFailed,
    StartupRunning,
    StartupFailed,
    Running,
    Stopping,
    Released,
}

/// What the driver reports back to the machine: the outcome of the action
/// the current phase called for, or a bare `Continue` through a transient
/// phase.
#[derive(Clone, Copy, Debug, PartialEq, Eq, Structural)]
pub enum LifeEvent {
    Continue,
    LinkOk,
    LinkErr,
    StartupOk,
    StartupErr,
    LoopEnded,
    Interrupted,
    ReleaseOk,
    ReleaseErr,
}

/// What the driver must do in the current phase before it can feed the next
/// event.
#[derive(Clone, Copy, Debug, PartialEq, Eq, Structural)]
pub enum LifeAction {
    Proceed,
    Link,
    RunStartup,
    Poll,
    Release,
    Done,
}

/// Which events answer which phase: linking can succeed or fail, startup can
/// succeed or fail, the running loop ends on its own or on an interrupt, the
/// release reports success or failure, and the transient phases are passed
/// through. No event answers `Released`.
pub open spec fn event_fits(p: Phase, ev: LifeEvent) -> bool {
    match (p, ev) {
        (Phase::Idle, LifeEvent::Continue) => true,
        (Phase::Linking, LifeEvent::LinkOk) => true,
        (Phase::Linking, LifeEvent::LinkErr) => true,
        (Phase::Linked, LifeEvent::Continue) => true,
        (Phase::LinkFailed, LifeEvent::Continue) => true,
        (Phase::StartupRunning, LifeEvent::StartupOk) => true,
        (Phase::StartupRunning, LifeEvent::StartupErr) => true,
        (Phase::StartupFailed, LifeEvent::Continue) => true,
        (Phase::Running, LifeEvent::LoopEnded) => true,
        (Phase::Running, LifeEvent::Interrupted) => true,
        (Phase::Stopping, LifeEvent::ReleaseOk) => true,
        (Phase::Stopping, LifeEvent::ReleaseErr) => true,
        _ => false,
    }
}

/// The transition table. Both failure phases proceed to `Stopping`: release
/// is attempted on every path. `Stopping` leads to `Released` whether or not
/// the release itself succeeded — a release failure is only logged.
pub open spec fn spec_step(p: Phase, ev: LifeEvent) -> Phase {
    match (p, ev) {
        (Phase::Idle, LifeEvent::Continue) => Phase::Linking,
        (Phase::Linking, LifeEvent::LinkOk) => Phase::Linked,
        (Phase::Linking, LifeEvent::LinkErr) => Phase::LinkFailed,
        (Phase::Linked, LifeEvent::Continue) => Phase::StartupRunning,
        (Phase::LinkFailed, LifeEvent::Continue) => Phase::Stopping,
        (Phase::StartupRunning, LifeEvent::StartupOk) => Phase::Running,
        (Phase::StartupRunning, LifeEvent::StartupErr) => Phase::StartupFailed,
        (Phase::StartupFailed, LifeEvent::Continue) => Phase::Stopping,
        (Phase::Running, LifeEvent::LoopEnded) => Phase::Stopping,
        (Phase::Running, LifeEvent::Interrupted) => Phase::Stopping,
        (Phase::Stopping, LifeEvent::ReleaseOk) => Phase::Released,
        (Phase::Stopping, LifeEvent::ReleaseErr) => Phase::Released,
        _ => p,
    }
}

/// The action a phase calls for.
pub open spec fn phase_action(p: Phase) -> LifeAction {
    match p {
        Phase::Idle => LifeAction::Proceed,
        Phase::Linking => LifeAction::Link,
        Phase::Linked => LifeAction::Proceed,
        Phase::LinkFailed => LifeAction::Proceed,
        Phase::StartupRunning => LifeAction::RunStartup,
        Phase::StartupFailed => LifeAction::Proceed,
        Phase::Running => LifeAction::Poll,
        Phase::Stopping => LifeAction::Release,
        Phase::Released => LifeAction::Done,
    }
}

/// The supervisor: the current lifecycle phase, advanced one event at a
/// time.
pub struct Supervisor {
    phase: Phase,
}

impl View for Supervisor {
    type V = Phase;

    closed spec fn view(&self) -> Phase {
        self.phase
    }
}

impl Supervisor {
    /// A fresh supervisor, not yet started.
    pub fn new() -> (r: Self)
        ensures
            r@ == Phase::Idle,
    {
        Supervisor { phase: Phase::Idle }
    }

    /// The current phase.
    pub fn phase(&self) -> (r: Phase)
        ensures
            r == self@,
    {
        self.phase
    }

    /// The action the current phase calls for.
    pub fn next_action(&self) -> (r: LifeAction)
        ensures
            r == phase_action(self@),
    {
        match self.phase {
            Phase::Idle => LifeAction::Proceed,
            Phase::Linking => LifeAction::Link,
            Phase::Linked => LifeAction::Proceed,
            Phase::LinkFailed => LifeAction::Proceed,
            Phase::StartupRunning => LifeAction::RunStartup,
            Phase::StartupFailed => LifeAction::Proceed,
            Phase::Running => LifeAction::Poll,
            Phase::Stopping => LifeAction::Release,
            Phase::Released => LifeAction::Done,
        }
    }

    /// Feeds one event into the machine and reports the next action.
    pub fn step(&mut self, ev: LifeEvent) -> (r: LifeAction)
        requires
            event_fits(old(self)@, ev),
        ensures
            final(self)@ == spec_step(old(self)@, ev),
            r == phase_action(final(self)@),
    {
        let next = match (self.phase, ev) {
            (Phase::Idle, LifeEvent::Continue) => Phase::Linking,
            (Phase::Linking, LifeEvent::LinkOk) => Phase::Linked,
            (Phase::Linking, LifeEvent::LinkErr) => Phase::LinkFailed,
            (Phase::Linked, LifeEvent::Continue) => Phase::StartupRunning,
            (Phase::LinkFailed, LifeEvent::Continue) => Phase::Stopping,
            (Phase::StartupRunning, LifeEvent::StartupOk) => Phase::Running,
            (Phase::StartupRunning, LifeEvent::StartupErr) => Phase::StartupFailed,
            (Phase::StartupFailed, LifeEvent::Continue) => Phase::Stopping,
            (Phase::Running, LifeEvent::LoopEnded) => Phase::Stopping,
            (Phase::Running, LifeEvent::Interrupted) => Phase::Stopping,
            (Phase::Stopping, LifeEvent::ReleaseOk) => Phase::Released,
            (Phase::Stopping, LifeEvent::ReleaseErr) => Phase::Released,
            (p, _) => p,
        };
        self.phase = next;
        self.next_action()
    }
}

/// The phases visited when the machine starts in `p` and consumes the
/// events, the starting phase included.
pub open spec fn run_from(p: Phase, evs: Seq<LifeEvent>) -> Seq<Phase>
    decreases evs.len(),
{
    if evs.len() == 0 {
        seq![p]
    } else {
        seq![p] + run_from(spec_step(p, evs[0]), evs.drop_first())
    }
}

/// Whether each event in turn answers the phase the machine is in when it
/// arrives.
pub open spec fn fits_from(p: Phase, evs: Seq<LifeEvent>) -> bool
    decreases evs.len(),
{
    if evs.len() == 0 {
        true
    } else {
        event_fits(p, evs[0]) && fits_from(spec_step(p, evs[0]), evs.drop_first())
    }
}

/// How often a phase sequence visits `Stopping` — the phase in which, and
/// only in which, the release is performed.
pub open spec fn count_stopping(ps: Seq<Phase>) -> int
    decreases ps.len(),
{
    if ps.len() == 0 {
        0
    } else {
        (if ps[0] is Stopping {
            1int
        } else {
            0int
        }) + count_stopping(ps.drop_first())
    }
}

proof fn lemma_run_len(p: Phase, evs: Seq<LifeEvent>)
    ensures
        run_from(p, evs).len() == evs.len() + 1,
        run_from(p, evs)[0] == p,
    decreases evs.len(),
{
    if evs.len() > 0 {
        lemma_run_len(spec_step(p, evs[0]), evs.drop_first());
    }
}

proof fn lemma_release_once_from(p: Phase, evs: Seq<LifeEvent>)
    requires
        fits_from(p, evs),
        run_from(p, evs).last() is Released,
    ensures
        count_stopping(run_from(p, evs)) == if p is Released {
            0int
        } else {
            1int
        },
    decreases evs.len(),
{
    lemma_run_len(p, evs);
    if evs.len() == 0 {
        assert(run_from(p, evs) =~= seq![p]);
        assert(run_from(p, evs).last() == p);
        assert(seq![p].drop_first() =~= Seq::<Phase>::empty());
        assert(count_stopping(Seq::<Phase>::empty()) == 0);
        assert(seq![p][0] == p);
        assert(count_stopping(seq![p]) == 0);
    } else {
        let p2 = spec_step(p, evs[0]);
        let rest = evs.drop_first();
        let run = run_from(p, evs);
        let run2 = run_from(p2, rest);
        lemma_run_len(p2, rest);
        assert(run =~= seq![p] + run2);
        assert(run.last() == run2.last());
        lemma_release_once_from(p2, rest);
        assert(run.drop_first() =~= run2);
        assert(count_stopping(run) == (if p is Stopping {
            1int
        } else {
            0int
        }) + count_stopping(run2));
        assert(!(p is Released));
        if p is Stopping {
            assert(p2 is Released);
        } else {
            assert(!(p2 is Released));
        }
    }
}

proof fn lemma_no_startup_after_failure(p: Phase, evs: Seq<LifeEvent>)
    requires
        fits_from(p, evs),
        p is LinkFailed || p is Stopping || p is Released,
    ensures
        !run_from(p, evs).contains(Phase::StartupRunning),
    decreases evs.len(),
{
    lemma_run_len(p, evs);
    let run = run_from(p, evs);
    if evs.len() == 0 {
        assert(run =~= seq![p]);
        assert(!run.contains(Phase::StartupRunning)) by {
            if run.contains(Phase::StartupRunning) {
                let i = choose|i: int| 0 <= i < run.len() && run[i] == Phase::StartupRunning;
                assert(run[i] == p);
            }
        }
    } else {
        let p2 = spec_step(p, evs[0]);
        let rest = evs.drop_first();
        let run2 = run_from(p2, rest);
        lemma_run_len(p2, rest);
        assert(p2 is LinkFailed || p2 is Stopping || p2 is Released);
        lemma_no_startup_after_failure(p2, rest);
        assert(run =~= seq![p] + run2);
        assert(!run.contains(Phase::StartupRunning)) by {
            if run.contains(Phase::StartupRunning) {
                let i = choose|i: int| 0 <= i < run.len() && run[i] == Phase::StartupRunning;
                if i == 0 {
                    assert(run[0] == p);
                } else {
                    assert(run[i] == run2[i - 1]);
                    assert(run2.contains(Phase::StartupRunning));
                }
            }
        }
    }
}

proof fn lemma_link_err_only_early(p: Phase, evs: Seq<LifeEvent>)
    requires
        fits_from(p, evs),
        evs.contains(LifeEvent::LinkErr),
    ensures
        p is Idle || p is Linking,
    decreases evs.len(),
{
    assert(evs.len() > 0);
    if evs[0] == LifeEvent::LinkErr {
        assert(event_fits(p, LifeEvent::LinkErr));
    } else {
        let p2 = spec_step(p, evs[0]);
        let rest = evs.drop_first();
        assert(rest.contains(LifeEvent::LinkErr)) by {
            let i = choose|i: int| 0 <= i < evs.len() && evs[i] == LifeEvent::LinkErr;
            assert(i != 0);
            assert(rest[i - 1] == evs[i]);
        }
        lemma_link_err_only_early(p2, rest);
        assert(!(p2 is Idle));
        assert(p2 is Linking);
        assert(event_fits(p, evs[0]) && spec_step(p, evs[0]) is Linking ==> p is Idle);
    }
}

proof fn lemma_no_startup_linkerr(p: Phase, evs: Seq<LifeEvent>)
    requires
        fits_from(p, evs),
        evs.contains(LifeEvent::LinkErr),
    ensures
        !run_from(p, evs).contains(Phase::StartupRunning),
    decreases evs.len(),
{
    lemma_link_err_only_early(p, evs);
    lemma_run_len(p, evs);
    let run = run_from(p, evs);
    assert(evs.len() > 0);
    let p2 = spec_step(p, evs[0]);
    let rest = evs.drop_first();
    let run2 = run_from(p2, rest);
    lemma_run_len(p2, rest);
    assert(run =~= seq![p] + run2);
    if evs[0] == LifeEvent::LinkErr {
        assert(p is Linking);
        assert(p2 is LinkFailed);
        lemma_no_startup_after_failure(p2, rest);
    } else {
        assert(rest.contains(LifeEvent::LinkErr)) by {
            let i = choose|i: int| 0 <= i < evs.len() && evs[i] == LifeEvent::LinkErr;
            assert(i != 0);
            assert(rest[i - 1] == evs[i]);
        }
        lemma_no_startup_linkerr(p2, rest);
    }
    assert(!run.contains(Phase::StartupRunning)) by {
        if run.contains(Phase::StartupRunning) {
            let i = choose|i: int| 0 <= i < run.len() && run[i] == Phase::StartupRunning;
            if i == 0 {
                assert(run[0] == p);
            } else {
                assert(run[i] == run2[i - 1]);
                assert(run2.contains(Phase::StartupRunning));
            }
        }
    }
}

/// The teardown guarantee: along every complete run of the machine — from
/// `Idle` to `Released`, however linking, startup, the loop, and the release
/// each turn out — the phase `Stopping`, in which and only in which the
/// session release is performed, is visited exactly once; and when linking
/// failed, the startup phase is never entered.
pub proof fn lemma_lifecycle_release(evs: Seq<LifeEvent>)
    requires
        fits_from(Phase::Idle, evs),
        run_from(Phase::Idle, evs).last() is Released,
    ensures
        count_stopping(run_from(Phase::Idle, evs)) == 1,
        evs.contains(LifeEvent::LinkErr) ==> !run_from(Phase::Idle, evs).contains(
            Phase::StartupRunning,
        ),
{
    lemma_release_once_from(Phase::Idle, evs);
    if evs.contains(LifeEvent::LinkErr) {
        lemma_no_startup_linkerr(Phase::Idle, evs);
    }
}

} // verus!
