use open_ui::KeyboardAction;
use open_ui::KeyboardEvent;
use open_ui::KeyboardKey;
use open_ui::ResizeEvent;
use open_ui::RgbaImageRegion;
use open_ui::UIBlueprint;
use open_ui::UIController;
use open_ui::UIEvent;
use open_ui::scheduler::FrameScheduler;
use open_ui::scheduler::LoopState;
use open_ui::scheduler::frame_interval_nanos;

struct RecordingController {
    batches: Vec<Vec<UIEvent>>,
    finished: bool,
}

impl UIController for RecordingController {
    fn blueprint(&self) -> UIBlueprint {
        UIBlueprint::default()
    }

    fn next_frame(&mut self) -> Option<RgbaImageRegion> {
        None
    }

    fn process_events(&mut self, events: &Vec<UIEvent>) {
        self.batches.push(events.clone());
    }

    fn should_terminate(&self) -> bool {
        self.finished
    }
}

#[test]
fn run_tick_delivers_the_batch_then_halts_once_terminated() {
    let mut sched = FrameScheduler::new();
    let mut ctl = RecordingController { batches: Vec::new(), finished: false };

    sched.note_resize(3, 4);
    let frame = sched.run_tick(&mut ctl);
    // the loop keeps running; this controller never offers a frame
    assert!(matches!(frame, Some(None)));
    assert_eq!(
        ctl.batches,
        vec![vec![UIEvent::Resize(ResizeEvent { width: 3, height: 4 })]]
    );

    // once the controller wishes to stop, the tick halts: no events
    // are delivered for that tick or any later one
    ctl.finished = true;
    sched.note_resize(5, 6);
    assert!(sched.run_tick(&mut ctl).is_none());
    assert_eq!(ctl.batches.len(), 1);

    ctl.finished = false;
    assert!(sched.run_tick(&mut ctl).is_none());
    assert_eq!(ctl.batches.len(), 1);
}

#[test]
fn events_are_delivered_once_in_arrival_order() {
    let mut sched = FrameScheduler::new();
    // event A arrives first, event B later in the same interval
    sched.note_keyboard_input(1, 10, true);
    sched.note_keyboard_input(1, 11, true);
    let batch = sched.begin_tick(false).unwrap();
    assert_eq!(
        batch,
        vec![
            UIEvent::Keyboard(KeyboardEvent {
                device_id: 1,
                key: KeyboardKey::A,
                action: KeyboardAction::Press,
            }),
            UIEvent::Keyboard(KeyboardEvent {
                device_id: 1,
                key: KeyboardKey::B,
                action: KeyboardAction::Press,
            }),
        ]
    );
    // the batch was handed over exactly once: the next tick gets nothing
    let next = sched.begin_tick(false).unwrap();
    assert!(next.is_empty());
}

#[test]
fn terminate_poll_halts_rendering_and_event_delivery() {
    let mut sched = FrameScheduler::new();
    sched.note_resize(10, 10);
    assert!(sched.begin_tick(true).is_none());
    assert_eq!(sched.state(), LoopState::Terminating);
    // terminating is absorbing: later ticks halt however the poll answers
    assert!(sched.begin_tick(false).is_none());
    assert!(sched.begin_tick(false).is_none());
    assert_eq!(sched.state(), LoopState::Terminating);
}

#[test]
fn close_request_forces_termination() {
    let mut sched = FrameScheduler::new();
    sched.handle_close_requested();
    assert_eq!(sched.state(), LoopState::Terminating);
    assert!(sched.begin_tick(false).is_none());
}

#[test]
fn scheduler_starts_running_with_no_pending_events() {
    let mut sched = FrameScheduler::new();
    assert_eq!(sched.state(), LoopState::Running);
    let batch = sched.begin_tick(false).unwrap();
    assert!(batch.is_empty());
}

#[test]
fn frame_interval_matches_the_frame_rate() {
    assert_eq!(frame_interval_nanos(60), 16_666_666);
    assert_eq!(frame_interval_nanos(1), 1_000_000_000);
}
