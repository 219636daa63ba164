//! The cooperative frame scheduler: a two-state machine with an event
//! batch, driven once per tick by the backend loop.
//!
//! Per tick: if the application asks to terminate, the scheduler moves
//! to its absorbing `Terminating` state and neither delivers events
//! nor offers a render; otherwise it hands over the batch of events
//! that arrived since the previous tick, in arrival order, and clears
//! it. Raw backend events are normalized and appended to the pending
//! batch as they arrive, between ticks; a close request from the
//! backend forces `Terminating` at once.

use vstd::prelude::*;
use crate::canvas::RgbaImageRegion;
use crate::controller::UIController;
use crate::events::MouseButton;
use crate::events::UIEvent;
use crate::normalizer::apply_cursor_movement_event;
use crate::normalizer::apply_keyboard_event;
use crate::normalizer::apply_mouse_button_event;
use crate::normalizer::apply_resize_event;
use crate::normalizer::spec_cursor_movement_event;
use crate::normalizer::spec_keyboard_event;
use crate::normalizer::spec_mouse_button_event;
use crate::normalizer::spec_resize_event;

verus! {

/// The scheduler's two states. `Terminating` is absorbing: once
/// reached, no later tick delivers events or renders.
#[derive(Debug, Copy, Clone, PartialEq, Eq, Structural)]
pub enum LoopState {
    Running,
    Terminating,
}

/// Whether a tick that starts in `state`, with the application's
/// termination poll answering `should_terminate`, halts: a halted tick
/// delivers no events and renders nothing.
pub open spec fn tick_halts(state: LoopState, should_terminate: bool) -> bool {
    state is Terminating || should_terminate
}

/// The scheduler state after one tick.
pub open spec fn tick_state_after(state: LoopState, should_terminate: bool) -> LoopState {
    if tick_halts(state, should_terminate) {
        LoopState::Terminating
    } else {
        state
    }
}

/// The scheduler state after a run of ticks whose termination polls
/// answered as `flags` says, oldest first.
pub open spec fn state_after_ticks(state: LoopState, flags: Seq<bool>) -> LoopState
    decreases flags.len(),
{
    if flags.len() == 0 {
        state
    } else {
        state_after_ticks(tick_state_after(state, flags[0]), flags.subrange(1, flags.len() as int))
    }
}

/// The frame scheduler: the loop's state and the batch of normalized
/// events that have arrived since the previous tick.
pub struct FrameScheduler {
    state: LoopState,
    pending: Vec<UIEvent>,
}

impl FrameScheduler {
    /// The scheduler's current state.
    pub closed spec fn spec_state(self) -> LoopState {
        self.state
    }

    /// The events that have arrived since the previous tick, in
    /// arrival order.
    pub closed spec fn pending_events(self) -> Seq<UIEvent> {
        self.pending@
    }

    /// A fresh scheduler: running, with no pending events.
    pub fn new() -> (r: FrameScheduler)
        ensures
            r.spec_state() is Running,
            r.pending_events() == Seq::<UIEvent>::empty(),
    {
        FrameScheduler { state: LoopState::Running, pending: Vec::new() }
    }

    /// The scheduler's current state.
    pub fn state(&self) -> (r: LoopState)
        ensures
            r == self.spec_state(),
    {
        self.state
    }

    /// Normalize one backend keyboard report and append the resulting
    /// event, if its key code is mapped, to the pending batch.
    pub fn note_keyboard_input(&mut self, device_id: u64, key_code: u32, pressed: bool)
        ensures
            final(self).spec_state() == old(self).spec_state(),
            match spec_keyboard_event(device_id, key_code, pressed) {
                Some(e) => final(self).pending_events() == old(self).pending_events().push(e),
                None => final(self).pending_events() == old(self).pending_events(),
            },
    {
        apply_keyboard_event(device_id, key_code, pressed, &mut self.pending);
    }

    /// Normalize one backend mouse-button report and append the
    /// resulting event to the pending batch.
    pub fn note_mouse_button(&mut self, device_id: u64, button: MouseButton, pressed: bool)
        ensures
            final(self).spec_state() == old(self).spec_state(),
            final(self).pending_events() == old(self).pending_events().push(
                spec_mouse_button_event(device_id, button, pressed),
            ),
    {
        apply_mouse_button_event(device_id, button, pressed, &mut self.pending);
    }

    /// Record one cursor movement, in logical window coordinates, in
    /// the pending batch.
    pub fn note_cursor_movement(&mut self, device_id: u64, x: u32, y: u32)
        ensures
            final(self).spec_state() == old(self).spec_state(),
            final(self).pending_events() == old(self).pending_events().push(
                spec_cursor_movement_event(device_id, x, y),
            ),
    {
        apply_cursor_movement_event(device_id, x, y, &mut self.pending);
    }

    /// Record one window resize, with the new logical size, in the
    /// pending batch.
    pub fn note_resize(&mut self, width: u32, height: u32)
        ensures
            final(self).spec_state() == old(self).spec_state(),
            final(self).pending_events() == old(self).pending_events().push(
                spec_resize_event(width, height),
            ),
    {
        apply_resize_event(width, height, &mut self.pending);
    }

    /// A close request from the backend forces the terminal state at
    /// once, bypassing the normal termination poll.
    pub fn handle_close_requested(&mut self)
        ensures
            final(self).spec_state() is Terminating,
            final(self).pending_events() == old(self).pending_events(),
    {
        self.state = LoopState::Terminating;
    }

    /// Begin one tick, given the application's answer to the
    /// termination poll. A halted tick (the scheduler was already
    /// terminating, or the application asked to stop) yields nothing
    /// and delivers no events, now or ever after; otherwise the batch
    /// of events that arrived since the previous tick is handed over,
    /// in arrival order, and the pending batch is cleared.
    pub fn begin_tick(&mut self, should_terminate: bool) -> (batch: Option<Vec<UIEvent>>)
        ensures
            final(self).spec_state() == tick_state_after(old(self).spec_state(), should_terminate),
            tick_halts(old(self).spec_state(), should_terminate) ==> {
                &&& batch is None
                &&& final(self).pending_events() == old(self).pending_events()
            },
            !tick_halts(old(self).spec_state(), should_terminate) ==> {
                &&& batch matches Some(b) && b@ == old(self).pending_events()
                &&& final(self).pending_events() == Seq::<UIEvent>::empty()
            },
    {
        if should_terminate || matches!(self.state, LoopState::Terminating) {
            self.state = LoopState::Terminating;
            return None;
        }

        let mut batch: Vec<UIEvent> = Vec::new();
        core::mem::swap(&mut batch, &mut self.pending);
        Some(batch)
    }

    /// One full tick of the per-tick protocol: poll the controller's
    /// termination wish; on a halted tick yield nothing; otherwise
    /// deliver the accumulated batch to `process_events`, strictly
    /// before asking `next_frame` for the tick's frame. The inner
    /// option is the controller's answer: a frame to draw, or nothing
    /// to skip drawing this tick while the loop keeps running.
    pub fn run_tick<'a, C: UIController>(&mut self, controller: &'a mut C) -> (frame: Option<
        Option<RgbaImageRegion<'a>>,
    >)
        ensures
            old(self).spec_state() is Terminating ==> {
                &&& frame is None
                &&& final(self).pending_events() == old(self).pending_events()
            },
            frame is None ==> final(self).spec_state() is Terminating,
            old(self).spec_state() is Running && frame is None ==> final(self).pending_events()
                == old(self).pending_events(),
            frame is Some ==> {
                &&& old(self).spec_state() is Running
                &&& final(self).spec_state() is Running
                &&& final(self).pending_events() == Seq::<UIEvent>::empty()
            },
    {
        let halt = controller.should_terminate();
        let batch = match self.begin_tick(halt) {
            Some(batch) => batch,
            None => {
                return None;
            },
        };
        controller.process_events(&batch);
        Some(controller.next_frame())
    }
}

/// The wall-clock interval between ticks, in nanoseconds, for a
/// configured frame rate.
pub fn frame_interval_nanos(frames_per_second: u32) -> (r: u64)
    requires
        frames_per_second >= 1,
    ensures
        r == 1_000_000_000u64 / frames_per_second as u64,
{
    1_000_000_000u64 / (frames_per_second as u64)
}

/// Events that arrive in the interval between two ticks are delivered
/// in a single batch, in arrival order: after events `a` then `b` join
/// the pending batch, the batch ends with `a` immediately followed by
/// `b`, and nothing else was added.
pub proof fn lemma_arrivals_batched_in_order(pending: Seq<UIEvent>, a: UIEvent, b: UIEvent)
    ensures
        pending.push(a).push(b) == pending + seq![a, b],
        pending.push(a).push(b).len() == pending.len() + 2,
        pending.push(a).push(b)[pending.len() as int] == a,
        pending.push(a).push(b)[pending.len() as int + 1] == b,
{
    assert(pending.push(a).push(b) =~= pending + seq![a, b]);
}

/// A termination poll that answers true halts that tick — no events
/// are delivered and nothing is rendered — and leaves the scheduler
/// terminating, whatever state it was in.
pub proof fn lemma_terminate_halts_tick(state: LoopState)
    ensures
        tick_halts(state, true),
        tick_state_after(state, true) is Terminating,
{
}

/// `Terminating` is absorbing: however later termination polls answer,
/// every subsequent tick halts and the scheduler stays terminating.
pub proof fn lemma_terminating_is_absorbing(flags: Seq<bool>)
    ensures
        state_after_ticks(LoopState::Terminating, flags) is Terminating,
        forall|should_terminate: bool| #[trigger] tick_halts(LoopState::Terminating, should_terminate),
    decreases flags.len(),
{
    if flags.len() > 0 {
        lemma_terminating_is_absorbing(flags.subrange(1, flags.len() as int));
    }
}

} // verus!
