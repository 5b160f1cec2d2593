//! The two cancellation levels and the ordered drain the server runs once its
//! own level is cancelled.

use vstd::prelude::*;
use crate::console::{event_effect, effect_view, interrupt_effect, is_interrupt, Effect, EffectView, UiEvent, KeyInput};

verus! {

/// The two one-shot cancellation flags: the server level stops the server,
/// the application level stops the console and the whole process.
#[derive(Debug, Clone, Copy, PartialEq, Eq, Structural)]
pub struct Signals {
    pub server: bool,
    pub app: bool,
}

/// The flags after the loop carries out an effect.
pub open spec fn signals_after(s: Signals, e: EffectView) -> Signals {
    match e {
        EffectView::CancelServer => Signals { server: true, app: s.app },
        EffectView::CancelApp => Signals { server: s.server, app: true },
        _ => s,
    }
}

/// Whether carrying out `e` starts the drain: it turns the server level on.
pub open spec fn starts_drain(s: Signals, e: EffectView) -> bool {
    !s.server && signals_after(s, e).server
}

impl Signals {
    /// Neither level cancelled.
    pub fn new() -> (r: Self)
        ensures
            r == (Signals { server: false, app: false }),
    {
        Signals { server: false, app: false }
    }

    /// Carries out the cancellation an effect asks for; returns whether this
    /// started the server's drain.
    pub fn apply(&mut self, e: &Effect) -> (started: bool)
        ensures
            *final(self) == signals_after(*old(self), effect_view(*e)),
            started == starts_drain(*old(self), effect_view(*e)),
    {
        match e {
            Effect::CancelServer => {
                let started = !self.server;
                self.server = true;
                started
            },
            Effect::CancelApp => {
                self.app = true;
                false
            },
            _ => false,
        }
    }

    /// Whether the console loop goes on: until the application level fires.
    pub fn running(&self) -> (r: bool)
        ensures
            r == !self.app,
    {
        !self.app
    }
}

/// Flags and number of drain starts after `n` interrupts, each handled as the
/// console handles the interrupt key.
pub open spec fn after_interrupts(s: Signals, n: nat) -> (Signals, nat)
    decreases n,
{
    if n == 0 {
        (s, 0)
    } else {
        let e = interrupt_effect(s.server);
        let (t, k) = after_interrupts(signals_after(s, e), (n - 1) as nat);
        (t, k + if starts_drain(s, e) { 1nat } else { 0nat })
    }
}

/// Cancellation is monotonic, and however many interrupts arrive, the drain
/// starts at most once: exactly once when the server was running and at least
/// one interrupt came.
pub proof fn lemma_drain_starts_once(s: Signals, n: nat)
    ensures
        after_interrupts(s, n).1 == if n > 0 && !s.server { 1nat } else { 0nat },
        s.server ==> after_interrupts(s, n).0.server,
        s.app ==> after_interrupts(s, n).0.app,
        n > 0 ==> after_interrupts(s, n).0.server,
    decreases n,
{
    if n > 0 {
        let e = interrupt_effect(s.server);
        lemma_drain_starts_once(signals_after(s, e), (n - 1) as nat);
    }
}

/// An interrupt once the server is stopping asks for application-level
/// cancellation, after which the console loop stops at its next check.
pub proof fn lemma_second_interrupt_exits(text: Seq<char>, k: KeyInput, s: Signals)
    requires
        s.server,
        k.press,
        is_interrupt(k),
    ensures
        event_effect(text, UiEvent::Key(k), s.server) == EffectView::CancelApp,
        signals_after(s, EffectView::CancelApp).app,
        signals_after(s, EffectView::CancelApp).server,
        !starts_drain(s, EffectView::CancelApp),
{
}

/// One step of the server's shutdown drain.
#[derive(Debug, Clone, Copy, PartialEq, Eq, Structural)]
pub enum ShutdownStep {
    /// Stop taking scheduled work and wait for what was scheduled.
    DrainScheduled,
    /// Close and drain the task queue of the world of this index.
    DrainWorld(usize),
    /// Persist the dirty state of the world of this index.
    SaveWorld(usize),
    /// Persist all players in one batch.
    SavePlayers,
    /// Tell the operator that a further interrupt exits.
    Notice,
    /// Nothing is left.
    Done,
}

/// The steps of the drain for `worlds` worlds, in the order they run.
pub open spec fn shutdown_order(worlds: nat) -> Seq<ShutdownStep> {
    seq![ShutdownStep::DrainScheduled]
        + Seq::new(worlds, |i: int| ShutdownStep::DrainWorld(i as usize))
        + Seq::new(worlds, |i: int| ShutdownStep::SaveWorld(i as usize))
        + seq![ShutdownStep::SavePlayers, ShutdownStep::Notice]
}

/// The largest number of worlds a drain can enumerate: its `2 * worlds + 3`
/// steps are then counted in a `usize` on every target.
pub const MAX_WORLDS: usize = 0x3fff_ffff;

/// The drain in progress: which steps were handed out, and the running total
/// of saved units.
pub struct ShutdownSequence {
    worlds: usize,
    position: usize,
    saved: u64,
}

impl ShutdownSequence {
    pub closed spec fn worlds(&self) -> nat {
        self.worlds as nat
    }

    /// How many steps were handed out.
    pub closed spec fn position(&self) -> nat {
        self.position as nat
    }

    pub closed spec fn saved(&self) -> u64 {
        self.saved
    }

    pub open spec fn wf(&self) -> bool {
        &&& self.worlds() <= MAX_WORLDS
        &&& self.position() <= shutdown_order(self.worlds()).len()
    }

    /// A drain over `worlds` worlds that has not started.
    pub fn new(worlds: usize) -> (r: Self)
        requires
            worlds <= MAX_WORLDS,
        ensures
            r.wf(),
            r.worlds() == worlds,
            r.position() == 0,
            r.saved() == 0,
    {
        ShutdownSequence { worlds, position: 0, saved: 0 }
    }

    /// Hands out the next step in the fixed order, each exactly once, then
    /// `Done` for ever.
    pub fn next_step(&mut self) -> (r: ShutdownStep)
        requires
            old(self).wf(),
        ensures
            final(self).wf(),
            final(self).worlds() == old(self).worlds(),
            final(self).saved() == old(self).saved(),
            old(self).position() < shutdown_order(old(self).worlds()).len() ==> {
                &&& r == shutdown_order(old(self).worlds())[old(self).position() as int]
                &&& final(self).position() == old(self).position() + 1
            },
            old(self).position() == shutdown_order(old(self).worlds()).len() ==> {
                &&& r == ShutdownStep::Done
                &&& final(self).position() == old(self).position()
            },
    {
        let n = self.worlds;
        let p = self.position;
        let ghost order = shutdown_order(n as nat);
        let step = if p == 0 {
            ShutdownStep::DrainScheduled
        } else if p <= n {
            ShutdownStep::DrainWorld(p - 1)
        } else if p <= 2 * n {
            ShutdownStep::SaveWorld(p - 1 - n)
        } else if p == 2 * n + 1 {
            ShutdownStep::SavePlayers
        } else if p == 2 * n + 2 {
            ShutdownStep::Notice
        } else {
            ShutdownStep::Done
        };
        if p < 2 * n + 3 {
            self.position = p + 1;
        }
        step
    }

    /// Adds units saved by one world to the running total.
    pub fn record_saved(&mut self, count: u64)
        ensures
            final(self).worlds() == old(self).worlds(),
            final(self).position() == old(self).position(),
            final(self).saved() == if old(self).saved() + count <= u64::MAX {
                (old(self).saved() + count) as u64
            } else {
                u64::MAX
            },
    {
        self.saved = self.saved.saturating_add(count);
    }

    /// The running total of saved units.
    pub fn saved_total(&self) -> (r: u64)
        ensures
            r == self.saved(),
    {
        self.saved
    }
}

/// The drain runs each step once, in the fixed order: the scheduled work
/// first, then every world's queue, then every world's state, then the
/// players, then the notice.
pub proof fn lemma_shutdown_order(worlds: nat)
    ensures
        shutdown_order(worlds).len() == 2 * worlds + 3,
        shutdown_order(worlds)[0] == ShutdownStep::DrainScheduled,
        forall|i: int| 0 <= i < worlds ==> #[trigger] shutdown_order(worlds)[1 + i] == ShutdownStep::DrainWorld(i as usize),
        forall|i: int| 0 <= i < worlds ==> #[trigger] shutdown_order(worlds)[1 + worlds + i] == ShutdownStep::SaveWorld(i as usize),
        shutdown_order(worlds)[2 * worlds + 1int] == ShutdownStep::SavePlayers,
        shutdown_order(worlds)[2 * worlds + 2int] == ShutdownStep::Notice,
        worlds <= MAX_WORLDS ==> forall|i: int, j: int|
            0 <= i < j < shutdown_order(worlds).len() ==> shutdown_order(worlds)[i] != shutdown_order(worlds)[j],
{
    let o = shutdown_order(worlds);
    assert forall|i: int| 0 <= i < worlds implies #[trigger] o[1 + i] == ShutdownStep::DrainWorld(i as usize) by {}
    assert forall|i: int| 0 <= i < worlds implies #[trigger] o[1 + worlds + i] == ShutdownStep::SaveWorld(i as usize) by {}
}

} // verus!
