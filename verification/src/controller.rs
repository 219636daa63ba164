//! The application-facing controller contract: the four calls through
//! which the frame-scheduling loop drives an application.

use vstd::prelude::*;
use crate::blueprint::UIBlueprint;
use crate::canvas::RgbaImageRegion;
use crate::events::UIEvent;

verus! {

/// The contract between an application and the frame-scheduling loop.
/// The loop calls `blueprint` exactly once, before the window exists;
/// then, once per tick: `should_terminate`, then `process_events` with
/// the batch of events that arrived since the previous tick, then
/// `next_frame`.
pub trait UIController {
    /// This function will be called once before the application opens,
    /// and determines the initial settings of the rendering window.
    fn blueprint(&self) -> UIBlueprint;

    /// This function will be called every tick, and returns the
    /// contents of the next render-able frame, or `None` to skip
    /// drawing for this tick.
    fn next_frame(&mut self) -> Option<RgbaImageRegion>;

    /// This function will be called every tick, receiving the batch of
    /// input events that arrived since the previous tick, in arrival
    /// order, and usually responding by modifying state.
    fn process_events(&mut self, events: &Vec<UIEvent>);

    /// Polled at the top of every tick; returning true moves the loop
    /// to its terminal state, halting rendering and event delivery.
    fn should_terminate(&self) -> bool;
}

/// A data-less struct that stands for the application shell. The
/// backend loop that owns the window and the GPU drives a
/// `UIController` through the scheduler's tick protocol.
pub struct UI;

} // verus!
