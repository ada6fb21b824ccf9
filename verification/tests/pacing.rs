use shader_preview::controller::{
    window_title, Controller, LoopEvent, LoopMode, Schedule, GL_ES_VERSION_MAJOR,
    GL_ES_VERSION_MINOR, TARGET_FRAME_PERIOD_MICROS, WINDOW_INITIAL_HEIGHT, WINDOW_INITIAL_WIDTH,
};

#[test]
fn startup_literals() {
    assert_eq!(window_title(), "A fantastic window!");
    assert_eq!(WINDOW_INITIAL_WIDTH, 1366);
    assert_eq!(WINDOW_INITIAL_HEIGHT, 768);
    assert_eq!(GL_ES_VERSION_MAJOR, 3);
    assert_eq!(GL_ES_VERSION_MINOR, 1);
    assert_eq!(TARGET_FRAME_PERIOD_MICROS, 1_000_000 / 60);
}

#[test]
fn events_drive_the_loop_as_specified() {
    let mut c = Controller::new(1_000);
    assert_eq!(c.mode, LoopMode::Running);

    let r = c.handle_event(LoopEvent::NewEvents, 2_000);
    assert!(r.update_gui_delta);
    assert_eq!(c.last_frame_micros, 2_000);
    assert_eq!(
        r.schedule,
        Schedule::WaitUntil {
            wake_micros: 2_000 + TARGET_FRAME_PERIOD_MICROS
        }
    );

    let r = c.handle_event(
        LoopEvent::Resized {
            width: 640,
            height: 480,
        },
        3_000,
    );
    assert_eq!(r.resize, Some((640, 480)));
    assert!(r.request_redraw);
    assert!(!r.render_frame);

    let r = c.handle_event(LoopEvent::MainEventsCleared, 4_000);
    assert!(r.request_redraw);
    assert_eq!(r.resize, None);

    let r = c.handle_event(LoopEvent::RedrawRequested, 5_000);
    assert!(r.render_frame);

    let r = c.handle_event(LoopEvent::CloseRequested, 6_000);
    assert_eq!(c.mode, LoopMode::Exiting);
    assert_eq!(r.schedule, Schedule::ExitLoop);

    // Exiting is terminal: later events keep the loop exiting and render
    // nothing.
    let r = c.handle_event(LoopEvent::RedrawRequested, 7_000);
    assert_eq!(c.mode, LoopMode::Exiting);
    assert_eq!(r.schedule, Schedule::ExitLoop);
    assert!(!r.render_frame);
}

#[test]
fn fast_frame_sleeps_the_remainder() {
    let mut c = Controller::new(0);
    // The frame's work took 10,000 µs of the 16,666 µs budget.
    let sleep = c.end_of_frame(10_000);
    assert_eq!(sleep, TARGET_FRAME_PERIOD_MICROS - 10_000);
    assert_eq!(sleep, 6_666);
    assert_eq!(c.frame_start_micros, 16_666);
}

#[test]
fn slow_frame_does_not_sleep() {
    let mut c = Controller::new(0);
    let sleep = c.end_of_frame(20_000);
    assert_eq!(sleep, 0);
    assert_eq!(c.frame_start_micros, 20_000);
}

#[test]
fn sustained_fast_frames_stay_under_sixty_per_window() {
    let mut c = Controller::new(0);
    let mut starts = vec![c.frame_start_micros];
    // Frames whose work is instantaneous: each one ends the moment it
    // starts, so pacing alone spaces them.
    for _ in 0..120 {
        let now = c.frame_start_micros;
        c.end_of_frame(now);
        starts.push(c.frame_start_micros);
    }
    for pair in starts.windows(2) {
        assert!(pair[0] + TARGET_FRAME_PERIOD_MICROS <= pair[1]);
    }
    let window = 60 * TARGET_FRAME_PERIOD_MICROS;
    for (i, &t0) in starts.iter().enumerate() {
        let in_window = starts[i..].iter().take_while(|&&t| t < t0 + window).count();
        assert!(in_window <= 60);
    }
}
