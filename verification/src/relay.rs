//! The ready-signal relay: a one-shot handoff that, once the frontend signals
//! readiness, delivers the collected file list exactly once. When nothing was
//! collected the relay never arms and no signal has any effect.

use vstd::prelude::*;

verus! {

/// The relay's phase: never armed (nothing collected), armed and awaiting the
/// readiness signal, or fired (the list has been handed off).
#[derive(Clone, Copy, PartialEq, Eq, Structural)]
pub enum Phase {
    Idle,
    Armed,
    Fired,
}

/// The phase after one "frontend-ready" signal is observed in phase `p`.
pub open spec fn phase_after_signal(p: Phase) -> Phase {
    match p {
        Phase::Idle => Phase::Idle,
        Phase::Armed => Phase::Fired,
        Phase::Fired => Phase::Fired,
    }
}

/// Whether a "frontend-ready" signal observed in phase `p` produces the
/// "open-file" notification.
pub open spec fn signal_emits(p: Phase) -> bool {
    p is Armed
}

/// The phase after `n` "frontend-ready" signals are observed from `p`.
pub open spec fn phase_after_signals(p: Phase, n: nat) -> Phase
    decreases n,
{
    if n == 0 {
        p
    } else {
        phase_after_signals(phase_after_signal(p), (n - 1) as nat)
    }
}

/// How many "open-file" notifications `n` signals produce from phase `p`.
pub open spec fn emissions(p: Phase, n: nat) -> nat
    decreases n,
{
    if n == 0 {
        0
    } else {
        (if signal_emits(p) { 1nat } else { 0nat })
            + emissions(phase_after_signal(p), (n - 1) as nat)
    }
}

/// The one-shot relay. It owns the collected file list until it fires; the
/// ghost record of the collected list survives the handoff, so contracts can
/// still speak of it afterwards.
pub struct Relay {
    phase: Phase,
    files: Vec<String>,
    collected: Ghost<Seq<String>>,
}

impl Relay {
    /// The relay's current phase.
    pub closed spec fn spec_phase(self) -> Phase {
        self.phase
    }

    /// The file list the relay was armed with, as collected, in order.
    pub closed spec fn collected(self) -> Seq<String> {
        self.collected@
    }

    /// Well-formed: an idle relay collected nothing, and an armed relay still
    /// holds exactly the collected, non-empty list.
    pub closed spec fn wf(self) -> bool {
        &&& (self.phase is Idle ==> self.collected@.len() == 0)
        &&& (self.phase is Armed ==> self.files@ == self.collected@ && self.collected@.len() > 0)
    }

    /// Arm the relay with the collected file list: idle when the list is
    /// empty (it will never fire), armed otherwise.
    pub fn new(files: Vec<String>) -> (r: Relay)
        ensures
            r.wf(),
            r.collected() == files@,
            r.spec_phase() == (if files@.len() == 0 {
                Phase::Idle
            } else {
                Phase::Armed
            }),
    {
        let phase = if files.len() == 0 {
            Phase::Idle
        } else {
            Phase::Armed
        };
        Relay { phase, collected: Ghost(files@), files }
    }

    /// True exactly when the relay is armed: only then must the host register
    /// a listener for the readiness signal.
    pub fn arms(&self) -> (b: bool)
        ensures
            b == (self.spec_phase() is Armed),
    {
        self.phase == Phase::Armed
    }

    /// Observe one "frontend-ready" signal. An armed relay fires: it hands
    /// back the collected list, exactly as collected, and will never hand
    /// anything back again. In any other phase nothing is handed back and the
    /// signal is ignored.
    pub fn on_ready(&mut self) -> (r: Option<Vec<String>>)
        requires
            old(self).wf(),
        ensures
            final(self).wf(),
            final(self).collected() == old(self).collected(),
            final(self).spec_phase() == phase_after_signal(old(self).spec_phase()),
            (r is Some) == signal_emits(old(self).spec_phase()),
            r is Some ==> r->0@ == old(self).collected(),
    {
        if self.phase == Phase::Armed {
            self.phase = Phase::Fired;
            let mut out: Vec<String> = Vec::new();
            core::mem::swap(&mut out, &mut self.files);
            Some(out)
        } else {
            None
        }
    }
}

/// An idle relay (nothing collected) stays idle forever: however many
/// readiness signals arrive, no notification is ever produced.
pub proof fn lemma_idle_never_fires(n: nat)
    ensures
        phase_after_signals(Phase::Idle, n) == Phase::Idle,
        emissions(Phase::Idle, n) == 0,
    decreases n,
{
    if n > 0 {
        lemma_idle_never_fires((n - 1) as nat);
    }
}

/// A fired relay is spent: no further signal moves it or produces another
/// notification.
pub proof fn lemma_fired_stays_spent(n: nat)
    ensures
        phase_after_signals(Phase::Fired, n) == Phase::Fired,
        emissions(Phase::Fired, n) == 0,
    decreases n,
{
    if n > 0 {
        lemma_fired_stays_spent((n - 1) as nat);
    }
}

/// An armed relay fires exactly once: with no signal there is no
/// notification, and any positive number of signals produces exactly one.
pub proof fn lemma_armed_fires_exactly_once(n: nat)
    ensures
        emissions(Phase::Armed, n) == (if n == 0 { 0nat } else { 1nat }),
        phase_after_signals(Phase::Armed, n) == (if n == 0 {
            Phase::Armed
        } else {
            Phase::Fired
        }),
{
    if n > 0 {
        lemma_fired_stays_spent((n - 1) as nat);
    }
}

} // verus!
