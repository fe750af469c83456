use grapher::capture::ConfigError;
use grapher::config::{
    exit_status, selector, window_title, DEFAULT_AXIS_MAX, DEFAULT_AXIS_MIN, STATUS_CONFIG_FAULT,
    STATUS_OK,
};
use grapher::mode::CaptureMode;
use grapher::render::{
    buffer_len, next_frame, segments, Frame, BYTES_PER_PIXEL, CANVAS_HEIGHT, CANVAS_WIDTH,
    FRAME_MILLIS,
};
use grapher::shutdown::{Action, Event, Phase, ShutdownCoordinator, GRACE_MILLIS};

#[test]
fn title_falls_back_on_the_default() {
    assert_eq!(window_title(None), "Grapher");
    assert_eq!(window_title(Some("cpu load")), "cpu load");
    assert_eq!(window_title(Some("")), "");
}

#[test]
fn selector_falls_back_on_the_first_mode() {
    assert_eq!(selector(None), "1");
    assert_eq!(selector(Some("21")), "21");
    assert_eq!(selector(Some("bogus")), "bogus");
    assert_eq!(CaptureMode::from_token(&selector(None)), Some(CaptureMode::YFromFirstGroup));
}

#[test]
fn axes_run_from_zero_to_a_hundred_by_default() {
    assert_eq!(DEFAULT_AXIS_MIN, 0);
    assert_eq!(DEFAULT_AXIS_MAX, 100);
}

#[test]
fn refused_configuration_has_its_own_exit_status() {
    assert_eq!(exit_status(None), STATUS_OK);
    assert_eq!(exit_status(None), 0);
    for fault in [ConfigError::BadPattern, ConfigError::BadResetPattern, ConfigError::UnknownMode] {
        assert_eq!(exit_status(Some(fault)), STATUS_CONFIG_FAULT);
        assert_ne!(exit_status(Some(fault)), STATUS_OK);
    }
}

#[test]
fn canvas_has_its_fixed_size() {
    assert_eq!(CANVAS_WIDTH, 680);
    assert_eq!(CANVAS_HEIGHT, 320);
    assert_eq!(BYTES_PER_PIXEL, 4);
    assert_eq!(buffer_len(), 680 * 320 * 4);
    assert_eq!(FRAME_MILLIS, 32);
    assert_eq!(1000 / FRAME_MILLIS, 31);
}

#[test]
fn frame_is_drawn_while_the_window_is_open() {
    assert_eq!(next_frame(true, false), Frame::Draw);
    assert_eq!(next_frame(true, true), Frame::Close);
    assert_eq!(next_frame(false, false), Frame::Close);
    assert_eq!(next_frame(false, true), Frame::Close);
}

#[test]
fn segments_join_each_point_to_the_next() {
    let points = vec![(0.0, 10.0), (1.0, 20.0), (2.0, 5.0), (3.0, 5.0)];
    assert_eq!(
        segments(&points),
        vec![
            ((0.0, 10.0), (1.0, 20.0)),
            ((1.0, 20.0), (2.0, 5.0)),
            ((2.0, 5.0), (3.0, 5.0)),
        ]
    );
}

#[test]
fn fewer_than_two_points_give_no_segment() {
    let none: Vec<(f64, f64)> = Vec::new();
    assert_eq!(segments(&none), Vec::new());
    assert_eq!(segments(&vec![(1.0, 1.0)]), Vec::new());
    assert_eq!(segments(&vec![7u8, 9u8]), vec![(7u8, 9u8)]);
}

#[test]
fn coordinator_starts_running() {
    let coordinator = ShutdownCoordinator::new();
    assert_eq!(coordinator.phase(), Phase::Running);
    assert!(coordinator.keep_running());
}

#[test]
fn closing_the_window_arms_the_watchdog() {
    let mut coordinator = ShutdownCoordinator::new();
    let action = coordinator.on_event(Event::CloseRequested);
    assert_eq!(action, Action::ArmWatchdog(GRACE_MILLIS));
    assert_eq!(action, Action::ArmWatchdog(3000));
    assert_eq!(coordinator.phase(), Phase::Stopping);
    assert!(!coordinator.keep_running());
}

#[test]
fn watchdog_is_armed_only_once() {
    let mut coordinator = ShutdownCoordinator::new();
    coordinator.on_event(Event::CloseRequested);
    assert_eq!(coordinator.on_event(Event::CloseRequested), Action::Carry);
    assert_eq!(coordinator.phase(), Phase::Stopping);
}

#[test]
fn watchdog_ends_the_process_in_either_state() {
    let mut running = ShutdownCoordinator::new();
    assert_eq!(running.on_event(Event::WatchdogExpired), Action::ForceExit);
    let mut stopping = ShutdownCoordinator::new();
    stopping.on_event(Event::CloseRequested);
    assert_eq!(stopping.on_event(Event::WatchdogExpired), Action::ForceExit);
    assert_eq!(stopping.phase(), Phase::Stopping);
}

#[test]
fn reader_that_comes_back_in_time_ends_the_run() {
    let mut coordinator = ShutdownCoordinator::new();
    coordinator.on_event(Event::CloseRequested);
    assert_eq!(coordinator.on_event(Event::ReaderFinished), Action::Exit);
}

#[test]
fn end_of_input_leaves_the_window_open() {
    let mut coordinator = ShutdownCoordinator::new();
    assert_eq!(coordinator.on_event(Event::ReaderFinished), Action::Carry);
    assert_eq!(coordinator.phase(), Phase::Running);
    assert!(coordinator.keep_running());
}

#[test]
fn flag_never_comes_back_up() {
    let mut coordinator = ShutdownCoordinator::new();
    coordinator.on_event(Event::CloseRequested);
    for event in [
        Event::ReaderFinished,
        Event::CloseRequested,
        Event::WatchdogExpired,
        Event::CloseRequested,
        Event::ReaderFinished,
    ] {
        coordinator.on_event(event);
        assert!(!coordinator.keep_running());
    }
}
