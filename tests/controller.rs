use wol_service::controller::{
    status_report, Action, Controller, Event, Phase, ServiceState, StatusReport,
};

fn magic_frame(junk: usize) -> Vec<u8> {
    let mut f = vec![0x11u8; junk];
    f.extend_from_slice(&[0xff; 6]);
    for _ in 0..16 {
        f.extend_from_slice(&[0xaa, 0xbb, 0xcc, 0xdd, 0xee, 0xff]);
    }
    f
}

/// Brings a controller to the point where it reads frames.
fn listening_controller() -> Controller {
    let mut c = Controller::new();
    assert_eq!(c.action(), Action::LocateInterface);
    assert_eq!(c.step(&Event::Located { found: true }), Action::PollShutdown);
    assert_eq!(c.step(&Event::ShutdownPolled { requested: false }), Action::CheckProcess);
    assert_eq!(c.step(&Event::ProcessChecked { running: false }), Action::OpenCapture);
    assert_eq!(c.step(&Event::CaptureOpened { ok: true }), Action::PollShutdown);
    assert_eq!(c.phase(), Phase::Listening);
    assert_eq!(c.step(&Event::ShutdownPolled { requested: false }), Action::ReadFrame);
    c
}

#[test]
fn missing_interface_stops_with_error() {
    let mut c = Controller::new();
    assert_eq!(c.phase(), Phase::Initializing);
    assert_eq!(c.step(&Event::Located { found: false }), Action::Stop { exit_code: 1 });
    assert_eq!(c.step(&Event::Slept), Action::Stop { exit_code: 1 });
}

#[test]
fn running_target_never_opens_capture() {
    let mut c = Controller::new();
    c.step(&Event::Located { found: true });
    for _ in 0..5 {
        assert_eq!(c.step(&Event::ShutdownPolled { requested: false }), Action::CheckProcess);
        let a = c.step(&Event::ProcessChecked { running: true });
        assert_eq!(a, Action::Sleep);
        assert_ne!(a, Action::OpenCapture);
        assert_eq!(c.phase(), Phase::Resting);
        assert_eq!(c.step(&Event::Slept), Action::PollShutdown);
        assert_eq!(c.phase(), Phase::Monitoring);
    }
}

#[test]
fn magic_frame_launches_exactly_once() {
    let mut c = listening_controller();
    let f = magic_frame(6);
    assert_eq!(f.len(), 108);
    assert_eq!(c.step(&Event::FrameRead(f.clone())), Action::Launch);
    assert_eq!(c.phase(), Phase::Launching);
    assert_eq!(c.step(&Event::LaunchFinished), Action::Sleep);
    assert_eq!(c.step(&Event::FrameRead(f)), Action::Sleep);
    assert_eq!(c.step(&Event::Slept), Action::PollShutdown);
}

#[test]
fn launch_is_not_asked_twice_whatever_follows() {
    let mut c = listening_controller();
    assert_eq!(c.step(&Event::FrameRead(magic_frame(0))), Action::Launch);
    assert_eq!(c.step(&Event::ReadFailed), Action::Sleep);
}

#[test]
fn read_errors_do_not_abort_listening() {
    let mut c = listening_controller();
    for _ in 0..3 {
        assert_eq!(c.step(&Event::ReadFailed), Action::PollShutdown);
        assert_eq!(c.phase(), Phase::Listening);
        assert_eq!(c.step(&Event::ShutdownPolled { requested: false }), Action::ReadFrame);
    }
    assert_eq!(c.step(&Event::FrameRead(magic_frame(14))), Action::Launch);
}

#[test]
fn ordinary_frames_keep_listening() {
    let mut c = listening_controller();
    assert_eq!(c.step(&Event::FrameRead(vec![0u8; 60])), Action::PollShutdown);
    assert_eq!(c.step(&Event::ShutdownPolled { requested: false }), Action::ReadFrame);
    assert_eq!(c.step(&Event::FrameRead(vec![0xffu8; 101])), Action::PollShutdown);
}

#[test]
fn shutdown_while_listening_stops_cleanly() {
    let mut c = listening_controller();
    assert_eq!(c.step(&Event::ReadFailed), Action::PollShutdown);
    assert_eq!(c.step(&Event::ShutdownPolled { requested: true }), Action::Stop { exit_code: 0 });
    assert_eq!(c.phase(), Phase::Stopped { exit_code: 0 });
    assert_eq!(c.step(&Event::FrameRead(magic_frame(0))), Action::Stop { exit_code: 0 });
}

#[test]
fn shutdown_while_monitoring_stops_cleanly() {
    let mut c = Controller::new();
    c.step(&Event::Located { found: true });
    assert_eq!(c.step(&Event::ShutdownPolled { requested: true }), Action::Stop { exit_code: 0 });
}

#[test]
fn failed_capture_open_stops_with_error() {
    let mut c = Controller::new();
    c.step(&Event::Located { found: true });
    c.step(&Event::ShutdownPolled { requested: false });
    assert_eq!(c.step(&Event::ProcessChecked { running: false }), Action::OpenCapture);
    assert_eq!(c.step(&Event::CaptureOpened { ok: false }), Action::Stop { exit_code: 1 });
}

#[test]
fn unexpected_event_repeats_the_action() {
    let mut c = Controller::new();
    assert_eq!(c.step(&Event::Slept), Action::LocateInterface);
    c.step(&Event::Located { found: true });
    assert_eq!(c.step(&Event::ReadFailed), Action::PollShutdown);
    assert_eq!(c.phase(), Phase::Monitoring);
}

#[test]
fn status_records() {
    assert_eq!(
        status_report(ServiceState::Running),
        StatusReport { running: true, accepts_stop: true, exit_code: 0, checkpoint: 0 }
    );
    assert_eq!(
        status_report(ServiceState::Stopped { exit_code: 1 }),
        StatusReport { running: false, accepts_stop: false, exit_code: 1, checkpoint: 0 }
    );
    assert_eq!(
        status_report(ServiceState::Stopped { exit_code: 0 }),
        StatusReport { running: false, accepts_stop: false, exit_code: 0, checkpoint: 0 }
    );
}
