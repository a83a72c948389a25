use ndk_midi::{
    device_type_result, jni_succeeded, MediaError, MidiDeviceType, MidiOpcode, ReleaseAction,
    ReleaseEvent, ReleaseState,
};

#[test]
fn device_type_from_named_codes() {
    assert_eq!(MidiDeviceType::from(1u32), MidiDeviceType::USB);
    assert_eq!(MidiDeviceType::from(2u32), MidiDeviceType::Virtual);
    assert_eq!(MidiDeviceType::from(3u32), MidiDeviceType::Bluetooth);
}

#[test]
fn device_type_from_other_codes() {
    assert_eq!(MidiDeviceType::from(0u32), MidiDeviceType::Unknown(0));
    assert_eq!(MidiDeviceType::from(4u32), MidiDeviceType::Unknown(4));
    assert_eq!(MidiDeviceType::from(u32::MAX), MidiDeviceType::Unknown(u32::MAX));
}

#[test]
fn device_type_into_codes() {
    assert_eq!(u32::from(MidiDeviceType::USB), 1);
    assert_eq!(u32::from(MidiDeviceType::Virtual), 2);
    assert_eq!(u32::from(MidiDeviceType::Bluetooth), 3);
    assert_eq!(u32::from(MidiDeviceType::Unknown(77)), 77);
}

#[test]
fn device_type_code_round_trip() {
    for code in [0u32, 1, 2, 3, 4, 100, u32::MAX] {
        assert_eq!(u32::from(MidiDeviceType::from(code)), code);
    }
}

#[test]
fn device_type_round_trip_and_its_exception() {
    for t in [
        MidiDeviceType::USB,
        MidiDeviceType::Virtual,
        MidiDeviceType::Bluetooth,
        MidiDeviceType::Unknown(0),
        MidiDeviceType::Unknown(9),
    ] {
        assert_eq!(MidiDeviceType::from(u32::from(t)), t);
    }
    // An `Unknown` holding a named code reads back as the named type.
    assert_eq!(MidiDeviceType::from(u32::from(MidiDeviceType::Unknown(1))), MidiDeviceType::USB);
}

#[test]
fn media_status_ok_and_errors() {
    assert_eq!(MediaError::from_status(0), Ok(()));
    assert_eq!(MediaError::from_status(-10003), Err(MediaError(-10003)));
    assert_eq!(MediaError::from_status(1100), Err(MediaError(1100)));
}

#[test]
fn counts_and_negative_statuses() {
    assert_eq!(MediaError::from_status_if_negative(0), Ok(0));
    assert_eq!(MediaError::from_status_if_negative(16), Ok(16));
    assert_eq!(MediaError::from_status_if_negative(-10005), Err(MediaError(-10005)));
    // A status beyond the range of a C `int` is narrowed as a cast does.
    let wide: isize = -(1isize << 32) - 7;
    assert_eq!(MediaError::from_status_if_negative(wide), Err(MediaError(-7)));
}

#[test]
fn device_type_query_result() {
    assert_eq!(device_type_result(1), Ok(MidiDeviceType::USB));
    assert_eq!(device_type_result(3), Ok(MidiDeviceType::Bluetooth));
    assert_eq!(device_type_result(0), Ok(MidiDeviceType::Unknown(0)));
    assert_eq!(device_type_result(-10003), Err(MediaError(-10003)));
}

#[test]
fn receive_error() {
    assert!(matches!(
        MidiOpcode::from_receive(-10007, 0, 0, 0),
        Err(MediaError(-10007))
    ));
}

#[test]
fn receive_no_message() {
    assert!(matches!(
        MidiOpcode::from_receive(0, 1, 12, 34),
        Ok(MidiOpcode::NoMessage)
    ));
}

#[test]
fn receive_data() {
    assert!(matches!(
        MidiOpcode::from_receive(1, 1, 3, 123456789),
        Ok(MidiOpcode::Data { length: 3, timestamp: 123456789 })
    ));
}

#[test]
fn receive_flush() {
    assert!(matches!(
        MidiOpcode::from_receive(1, 2, 3, 5),
        Ok(MidiOpcode::Flush)
    ));
}

#[test]
fn jni_status() {
    assert!(jni_succeeded(0));
    assert!(!jni_succeeded(-2));
    assert!(!jni_succeeded(1));
}

fn run(env: i32, attach: i32, release: i32) -> Vec<ReleaseAction> {
    let (mut state, mut action) = ReleaseState::start();
    let mut actions = vec![action];
    loop {
        let event = match action {
            ReleaseAction::GetEnv => ReleaseEvent::EnvStatus(env),
            ReleaseAction::AttachCurrentThreadAsDaemon => ReleaseEvent::AttachStatus(attach),
            ReleaseAction::ReleaseDevice => ReleaseEvent::ReleaseStatus(release),
            ReleaseAction::DetachCurrentThread => ReleaseEvent::Detached,
            _ => break,
        };
        let next = state.step(event);
        state = next.0;
        action = next.1;
        actions.push(action);
    }
    actions
}

#[test]
fn release_on_attached_thread() {
    assert_eq!(
        run(0, 0, 0),
        vec![ReleaseAction::GetEnv, ReleaseAction::ReleaseDevice, ReleaseAction::Finish]
    );
}

#[test]
fn release_on_detached_thread_detaches_again() {
    assert_eq!(
        run(-2, 0, 0),
        vec![
            ReleaseAction::GetEnv,
            ReleaseAction::AttachCurrentThreadAsDaemon,
            ReleaseAction::ReleaseDevice,
            ReleaseAction::DetachCurrentThread,
            ReleaseAction::Finish,
        ]
    );
}

#[test]
fn release_stops_when_attach_fails() {
    assert_eq!(
        run(-2, -1, 0),
        vec![
            ReleaseAction::GetEnv,
            ReleaseAction::AttachCurrentThreadAsDaemon,
            ReleaseAction::AttachFailed,
        ]
    );
}

#[test]
fn release_failure_keeps_status_and_skips_detach() {
    assert_eq!(
        run(-2, 0, -10003),
        vec![
            ReleaseAction::GetEnv,
            ReleaseAction::AttachCurrentThreadAsDaemon,
            ReleaseAction::ReleaseDevice,
            ReleaseAction::ReleaseFailed(MediaError(-10003)),
        ]
    );
    assert_eq!(
        run(0, 0, -10003),
        vec![
            ReleaseAction::GetEnv,
            ReleaseAction::ReleaseDevice,
            ReleaseAction::ReleaseFailed(MediaError(-10003)),
        ]
    );
}

#[test]
fn release_state_after_steps() {
    let (s, _) = ReleaseState::start();
    assert_eq!(s, ReleaseState::QueryingEnv);
    let (s, _) = s.step(ReleaseEvent::EnvStatus(-2));
    assert_eq!(s, ReleaseState::Attaching);
    let (s, _) = s.step(ReleaseEvent::AttachStatus(0));
    assert_eq!(s, ReleaseState::Releasing { attached_here: true });
    let (s, _) = s.step(ReleaseEvent::ReleaseStatus(0));
    assert_eq!(s, ReleaseState::Detaching);
    let (s, a) = s.step(ReleaseEvent::Detached);
    assert_eq!((s, a), (ReleaseState::Finished, ReleaseAction::Finish));
}

#[test]
fn count_error_matches_status_error() {
    let value: isize = -10004;
    let err = MediaError::from_status_if_negative(value).unwrap_err();
    assert_eq!(MediaError::from_status(err.0), Err(err));
}
