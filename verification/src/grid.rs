//! The simulation coordinator: the run/halt/freeze state machine around a
//! universe.
//!
//! The coordinator owns the universe and decides; the surrounding program
//! supplies what a library cannot: the background thread that drives the
//! tick loop, the channel that carries `UniverseGridRequest` values to the
//! consumer, and the drawing itself. Every method here returns or ensures
//! exactly what that surrounding loop must do next, so the decisions stay
//! verified while the plumbing stays outside.

use vstd::prelude::*;
use crate::universe::Universe;
use crate::universe::UniverseSnapshot;

verus! {

/// Whether the grid is being edited or simulated.
#[derive(Clone, Copy, PartialEq, Eq, Structural, Debug)]
pub enum UniverseGridMode {
    Design,
    Run,
}

/// What a universe grid can be asked to do through the notification channel.
#[derive(Clone, Copy, PartialEq, Eq, Structural, Debug)]
pub enum UniverseGridRequest {
    Freeze,
    Unfreeze,
    Mode(UniverseGridMode),
    DarkColorSchemePreference(bool),
    Run,
    Halt,
    Redraw,
}

/// What the surrounding program must do after a request is applied.
#[derive(Clone, Copy, PartialEq, Eq, Structural, Debug)]
pub enum GridEffect {
    /// Nothing.
    Noop,
    /// Repaint from the current universe.
    QueueDraw,
    /// Spawn the tick loop.
    StartLoop,
    /// Revoke the running tick loop's permission to continue.
    StopLoop,
}

/// The coordinator's control facets, apart from the universe itself.
#[derive(Clone, Copy, PartialEq, Eq, Structural, Debug)]
pub struct ControlState {
    pub mode: UniverseGridMode,
    pub frozen: bool,
    pub prefers_dark_mode: bool,
    pub running: bool,
}

/// How one request moves the control state.
pub open spec fn control_step(state: ControlState, request: UniverseGridRequest) -> ControlState {
    match request {
        UniverseGridRequest::Freeze => ControlState { frozen: true, ..state },
        UniverseGridRequest::Unfreeze => ControlState { frozen: false, ..state },
        UniverseGridRequest::Mode(mode) => if state.running {
            state
        } else {
            ControlState { mode, ..state }
        },
        UniverseGridRequest::DarkColorSchemePreference(prefers) => ControlState {
            prefers_dark_mode: prefers,
            ..state
        },
        UniverseGridRequest::Run => ControlState {
            running: true,
            mode: UniverseGridMode::Run,
            ..state
        },
        UniverseGridRequest::Halt => ControlState { running: false, ..state },
        UniverseGridRequest::Redraw => state,
    }
}

/// What the surrounding program must do for one request.
pub open spec fn request_effect(request: UniverseGridRequest) -> GridEffect {
    match request {
        UniverseGridRequest::Freeze => GridEffect::Noop,
        UniverseGridRequest::Unfreeze => GridEffect::QueueDraw,
        UniverseGridRequest::Mode(_) => GridEffect::Noop,
        UniverseGridRequest::DarkColorSchemePreference(_) => GridEffect::Noop,
        UniverseGridRequest::Run => GridEffect::StartLoop,
        UniverseGridRequest::Halt => GridEffect::StopLoop,
        UniverseGridRequest::Redraw => GridEffect::QueueDraw,
    }
}

/// A universe together with the run/freeze state that coordinates how it is
/// advanced and observed.
pub struct GameOfLifeUniverseGrid {
    pub mode: UniverseGridMode,
    pub frozen: bool,
    pub prefers_dark_mode: bool,
    pub running: bool,
    pub universe: Universe,
}

impl GameOfLifeUniverseGrid {
    /// The control facets, gathered for the step function.
    pub open spec fn control(self) -> ControlState {
        ControlState {
            mode: self.mode,
            frozen: self.frozen,
            prefers_dark_mode: self.prefers_dark_mode,
            running: self.running,
        }
    }

    /// The universe is well-formed, and while a tick loop runs the grid is
    /// in run mode.
    pub open spec fn wf(self) -> bool {
        &&& self.universe.wf()
        &&& self.running ==> self.mode is Run
    }

    /// A grid starts idle, unfrozen, in run mode, around the given universe.
    pub fn new(universe: Universe) -> (grid: GameOfLifeUniverseGrid)
        requires
            universe.wf(),
        ensures
            grid.wf(),
            grid.universe == universe,
            grid.mode is Run,
            !grid.frozen,
            !grid.prefers_dark_mode,
            !grid.running,
    {
        GameOfLifeUniverseGrid {
            mode: UniverseGridMode::Run,
            frozen: false,
            prefers_dark_mode: false,
            running: false,
            universe,
        }
    }

    pub fn mode(&self) -> (mode: UniverseGridMode)
        ensures
            mode == self.mode,
    {
        self.mode
    }

    /// Mode changes are rejected while a tick loop runs.
    pub fn set_mode(&mut self, value: UniverseGridMode)
        requires
            old(self).wf(),
        ensures
            final(self).wf(),
            final(self).mode == if old(self).running {
                old(self).mode
            } else {
                value
            },
            final(self).frozen == old(self).frozen,
            final(self).prefers_dark_mode == old(self).prefers_dark_mode,
            final(self).running == old(self).running,
            final(self).universe == old(self).universe,
    {
        if !self.is_running() {
            self.mode = value;
        }
    }

    pub fn is_running(&self) -> (running: bool)
        ensures
            running == self.running,
    {
        self.running
    }

    pub fn frozen(&self) -> (frozen: bool)
        ensures
            frozen == self.frozen,
    {
        self.frozen
    }

    /// Sets the redraw-suppression flag; unfreezing asks for an immediate
    /// repaint so the view is not left stale.
    pub fn set_frozen(&mut self, value: bool) -> (redraw: bool)
        requires
            old(self).wf(),
        ensures
            final(self).wf(),
            final(self).frozen == value,
            final(self).mode == old(self).mode,
            final(self).prefers_dark_mode == old(self).prefers_dark_mode,
            final(self).running == old(self).running,
            final(self).universe == old(self).universe,
            redraw == !value,
    {
        self.frozen = value;
        !value
    }

    pub fn prefers_dark_mode(&self) -> (prefers: bool)
        ensures
            prefers == self.prefers_dark_mode,
    {
        self.prefers_dark_mode
    }

    /// Records the theme preference; the grid assigns it no simulation
    /// meaning.
    pub fn set_prefers_dark_mode(&mut self, prefers_dark_variant: bool)
        requires
            old(self).wf(),
        ensures
            final(self).wf(),
            final(self).prefers_dark_mode == prefers_dark_variant,
            final(self).mode == old(self).mode,
            final(self).frozen == old(self).frozen,
            final(self).running == old(self).running,
            final(self).universe == old(self).universe,
    {
        self.prefers_dark_mode = prefers_dark_variant;
    }

    /// Transitions to running; the caller must then spawn the tick loop,
    /// which calls `loop_step` once per period until told to stop.
    pub fn run(&mut self)
        requires
            old(self).wf(),
        ensures
            final(self).wf(),
            final(self).running,
            final(self).mode is Run,
            final(self).frozen == old(self).frozen,
            final(self).prefers_dark_mode == old(self).prefers_dark_mode,
            final(self).universe == old(self).universe,
            final(self).control() == control_step(old(self).control(), UniverseGridRequest::Run),
    {
        self.set_mode(UniverseGridMode::Run);
        self.running = true;
    }

    /// Revokes the tick loop's permission to continue; idempotent, and it
    /// does not wait for the loop to exit.
    pub fn halt(&mut self)
        requires
            old(self).wf(),
        ensures
            final(self).wf(),
            !final(self).running,
            final(self).mode == old(self).mode,
            final(self).frozen == old(self).frozen,
            final(self).prefers_dark_mode == old(self).prefers_dark_mode,
            final(self).universe == old(self).universe,
            final(self).control() == control_step(old(self).control(), UniverseGridRequest::Halt),
    {
        self.running = false;
    }

    /// One round of the tick loop's body, after its sleep: when cancellation
    /// has been observed nothing happens and nothing further is emitted;
    /// otherwise the universe advances one generation and one redraw
    /// notification is owed to the consumer.
    pub fn loop_step(&mut self, cancelled: bool) -> (emit_redraw: bool)
        requires
            old(self).wf(),
        ensures
            final(self).wf(),
            final(self).control() == old(self).control(),
            final(self).universe.rows == old(self).universe.rows,
            final(self).universe.columns == old(self).universe.columns,
            final(self).universe.rule == old(self).universe.rule,
            emit_redraw == !cancelled,
            cancelled ==> final(self).universe == old(self).universe,
            !cancelled ==> forall|row: int, column: int|
                old(self).universe.in_bounds(row, column) ==> final(self).universe.alive(
                    row,
                    column,
                ) == old(self).universe.next_alive(row, column),
    {
        if cancelled {
            false
        } else {
            self.universe.tick();
            true
        }
    }

    /// Copies the universe as it stands into a snapshot: one consistent
    /// generation, never a half-advanced grid.
    pub fn get_universe_snapshot(&self) -> (snapshot: UniverseSnapshot)
        requires
            self.wf(),
        ensures
            snapshot.wf(),
            snapshot.rows == self.universe.rows,
            snapshot.columns == self.universe.columns,
            snapshot.cells@ == self.universe.cells@,
    {
        self.universe.snapshot()
    }

    /// Replaces the universe's contents wholesale with a freshly seeded grid
    /// of the same dimensions, in one swap: whatever the clock read, the new
    /// cells are the generator's stream of some seed, under the classic
    /// rule. The caller owes the consumer a redraw.
    pub fn random_seed(&mut self) -> (effect: GridEffect)
        requires
            old(self).wf(),
        ensures
            final(self).wf(),
            final(self).control() == old(self).control(),
            final(self).universe.rows == old(self).universe.rows,
            final(self).universe.columns == old(self).universe.columns,
            final(self).universe.rule.is_classic(),
            exists|seed: u64| final(self).universe.lcg_seeded(seed),
            effect is QueueDraw,
    {
        let rows = self.universe.rows();
        let columns = self.universe.columns();
        let seed = crate::rng::time_entropy();
        match Universe::from_seed(rows, columns, seed) {
            Ok(universe) => {
                self.universe = universe;
                proof {
                    assert(self.universe.lcg_seeded(seed));
                }
            },
            Err(_) => {
                proof {
                    assert(false);
                }
            },
        }
        GridEffect::QueueDraw
    }

    /// Applies one request from the notification channel and reports what
    /// the surrounding program must do; the universe itself is untouched.
    pub fn process_action(&mut self, action: UniverseGridRequest) -> (effect: GridEffect)
        requires
            old(self).wf(),
        ensures
            final(self).wf(),
            final(self).control() == control_step(old(self).control(), action),
            final(self).universe == old(self).universe,
            effect == request_effect(action),
    {
        match action {
            UniverseGridRequest::Freeze => {
                self.set_frozen(true);
                GridEffect::Noop
            },
            UniverseGridRequest::Unfreeze => {
                self.set_frozen(false);
                GridEffect::QueueDraw
            },
            UniverseGridRequest::Mode(mode) => {
                self.set_mode(mode);
                GridEffect::Noop
            },
            UniverseGridRequest::DarkColorSchemePreference(prefers) => {
                self.set_prefers_dark_mode(prefers);
                GridEffect::Noop
            },
            UniverseGridRequest::Run => {
                self.run();
                GridEffect::StartLoop
            },
            UniverseGridRequest::Halt => {
                self.halt();
                GridEffect::StopLoop
            },
            UniverseGridRequest::Redraw => GridEffect::QueueDraw,
        }
    }
}

/// Halting right after running leaves the grid idle: the loop's permission
/// is revoked, and the tick loop, which emits only through `loop_step`,
/// emits nothing once it observes the revocation.
pub proof fn lemma_run_then_halt(state: ControlState)
    ensures
        !control_step(control_step(state, UniverseGridRequest::Run), UniverseGridRequest::Halt)
            .running,
        request_effect(UniverseGridRequest::Halt) is StopLoop,
{
}

/// The fully dead universe is absorbing across the tick loop: one round of
/// `loop_step` — cancelled or not, its ensures are this lemma's requires —
/// leaves a dead grid dead under a rule that does not birth on zero
/// neighbors, and leaves this lemma applicable to the next round; so after
/// `run`, however many rounds the loop makes, the grid is still dead.
pub proof fn lemma_dead_grid_absorbing_across_loop(
    before: GameOfLifeUniverseGrid,
    after: GameOfLifeUniverseGrid,
)
    requires
        before.universe.wf(),
        before.universe.all_dead(),
        !before.universe.rule.birth@[0],
        after.universe.wf(),
        after.universe.rows == before.universe.rows,
        after.universe.columns == before.universe.columns,
        after.universe.rule == before.universe.rule,
        (after.universe == before.universe) || (forall|row: int, column: int|
            before.universe.in_bounds(row, column) ==> after.universe.alive(row, column)
                == before.universe.next_alive(row, column)),
    ensures
        after.universe.all_dead(),
        !after.universe.rule.birth@[0],
{
    if after.universe == before.universe {
    } else {
        crate::universe::lemma_dead_grid_stays_dead_after_tick(before.universe, after.universe);
    }
}

/// Freezing asks for no redraw, and while frozen the consumer suppresses
/// repainting; unfreezing asks for exactly one immediate redraw.
pub proof fn lemma_freeze_then_unfreeze(state: ControlState)
    ensures
        request_effect(UniverseGridRequest::Freeze) is Noop,
        control_step(state, UniverseGridRequest::Freeze).frozen,
        request_effect(UniverseGridRequest::Unfreeze) is QueueDraw,
        !control_step(control_step(state, UniverseGridRequest::Freeze), UniverseGridRequest::Unfreeze)
            .frozen,
{
}

} // verus!
