use embedder::frame_loop::{Directive, Event, FrameLoop, LoopState};

const QUIT: u32 = 9;

#[test]
fn new_loop_is_idle_at_epoch_zero() {
    let fl = FrameLoop::new(QUIT);
    assert_eq!(fl.state, LoopState::Idle);
    assert_eq!(fl.epoch, 0);
    assert!(!fl.scene_dirty);
    assert_eq!(fl.quit_key, QUIT);
}

#[test]
fn initial_scene_submits_epoch_zero() {
    let mut fl = FrameLoop::new(QUIT);
    let d = fl.initial_scene();
    assert_eq!(d, Directive::SubmitScene { epoch: 0 });
    assert_eq!(fl.state, LoopState::Idle);
    assert_eq!(fl.epoch, 0);
}

#[test]
fn unchanged_pointer_move_makes_no_renderer_call() {
    let mut fl = FrameLoop::new(QUIT);
    let mut submits = 0;
    let mut composites = 0;
    let mut presents = 0;
    // A PointerMove arrives; the strategy reports no rebuild needed.
    let d1 = fl.handle_event(&Event::PointerMove);
    assert_eq!(d1, Directive::RunStrategy);
    let d2 = fl.decide(false);
    match d2 {
        Directive::SubmitScene { .. } => submits += 1,
        Directive::Composite => composites += 1,
        Directive::Present => presents += 1,
        _ => {}
    }
    // The iteration is over with zero renderer calls, back at Idle.
    assert_eq!(d2, Directive::WaitForEvent);
    assert_eq!(fl.state, LoopState::Idle);
    assert_eq!((submits, composites, presents), (0, 0, 0));
    assert_eq!(fl.epoch, 0);
}

#[test]
fn unchanged_axis_motion_makes_no_renderer_call() {
    let mut fl = FrameLoop::new(QUIT);
    let d1 = fl.handle_event(&Event::AxisMotion);
    assert_eq!(d1, Directive::RunStrategy);
    let d2 = fl.decide(false);
    assert_eq!(d2, Directive::WaitForEvent);
    assert_eq!(fl.state, LoopState::Idle);
}

#[test]
fn quit_key_shuts_down_with_one_deinit() {
    let mut fl = FrameLoop::new(QUIT);
    let mut deinits = 0;
    let mut composites = 0;
    let mut presents = 0;
    let d = fl.handle_event(&Event::KeyDown(QUIT));
    match d {
        Directive::Deinit => deinits += 1,
        Directive::Composite => composites += 1,
        Directive::Present => presents += 1,
        _ => {}
    }
    assert_eq!(fl.state, LoopState::ShuttingDown);
    assert_eq!((deinits, composites, presents), (1, 0, 0));
}

#[test]
fn quit_mid_iteration_skips_remaining_steps() {
    let mut fl = FrameLoop::new(QUIT);
    fl.handle_event(&Event::Other);
    fl.decide(true);
    // The quit key arrives mid-iteration, before composition: the loop shuts
    // down at once and no further composite or present directive is issued.
    let d = fl.handle_event(&Event::KeyDown(QUIT));
    assert_eq!(d, Directive::Deinit);
    assert_eq!(fl.state, LoopState::ShuttingDown);
    assert!(!fl.scene_dirty);
}

#[test]
fn close_request_shuts_down() {
    let mut fl = FrameLoop::new(QUIT);
    let d = fl.handle_event(&Event::CloseRequested);
    assert_eq!(d, Directive::Deinit);
    assert_eq!(fl.state, LoopState::ShuttingDown);
}

#[test]
fn other_key_down_is_dispatched() {
    let mut fl = FrameLoop::new(QUIT);
    let d = fl.handle_event(&Event::KeyDown(QUIT + 1));
    assert_eq!(d, Directive::RunStrategy);
    assert_eq!(fl.state, LoopState::Dispatching { motion: false });
}

#[test]
fn non_motion_event_without_rebuild_still_composites_and_presents() {
    let mut fl = FrameLoop::new(QUIT);
    let d1 = fl.handle_event(&Event::Other);
    assert_eq!(d1, Directive::RunStrategy);
    let d2 = fl.decide(false);
    assert_eq!(d2, Directive::Composite);
    let d3 = fl.composited();
    assert_eq!(d3, Directive::Present);
    let d4 = fl.presented();
    assert_eq!(d4, Directive::WaitForEvent);
    assert_eq!(fl.state, LoopState::Idle);
    assert_eq!(fl.epoch, 0);
}

#[test]
fn rebuild_iteration_submits_then_composites_then_presents() {
    let mut fl = FrameLoop::new(QUIT);
    let d1 = fl.handle_event(&Event::KeyUp(3));
    assert_eq!(d1, Directive::RunStrategy);
    let d2 = fl.decide(true);
    assert_eq!(d2, Directive::SubmitScene { epoch: 1 });
    assert!(fl.scene_dirty);
    let d3 = fl.scene_submitted();
    assert_eq!(d3, Directive::Composite);
    assert!(!fl.scene_dirty);
    let d4 = fl.composited();
    assert_eq!(d4, Directive::Present);
    let d5 = fl.presented();
    assert_eq!(d5, Directive::WaitForEvent);
    assert_eq!(fl.state, LoopState::Idle);
    assert_eq!(fl.epoch, 1);
}

#[test]
fn two_rebuilds_use_strictly_increasing_epochs() {
    let mut fl = FrameLoop::new(QUIT);
    fl.handle_event(&Event::Other);
    let first = fl.decide(true);
    fl.scene_submitted();
    fl.composited();
    fl.presented();
    fl.handle_event(&Event::Other);
    let second = fl.decide(true);
    let first_epoch = match first {
        Directive::SubmitScene { epoch } => epoch,
        _ => panic!("first rebuild did not submit"),
    };
    let second_epoch = match second {
        Directive::SubmitScene { epoch } => epoch,
        _ => panic!("second rebuild did not submit"),
    };
    assert!(second_epoch > first_epoch);
    assert_eq!((first_epoch, second_epoch), (1, 2));
}

#[test]
fn skip_frame_returns_to_idle_and_keeps_epoch() {
    let mut fl = FrameLoop::new(QUIT);
    fl.handle_event(&Event::Other);
    fl.decide(true);
    fl.scene_submitted();
    // The GL context could not be made current: the frame is skipped.
    let d = fl.skip_frame();
    assert_eq!(d, Directive::WaitForEvent);
    assert_eq!(fl.state, LoopState::Idle);
    assert_eq!(fl.epoch, 1);
    // The next rebuild still gets a fresh, strictly greater epoch.
    fl.handle_event(&Event::Other);
    let d2 = fl.decide(true);
    assert_eq!(d2, Directive::SubmitScene { epoch: 2 });
}
