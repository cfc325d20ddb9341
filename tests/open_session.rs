use unitree_lidar::{
    open_step, port_c_string, start_open, LidarError, OpenAction, OpenEvent, OpenStage,
    SessionLease,
};

/// Runs an open attempt against scripted driver answers and records every
/// native call that was asked for.
fn drive(port: &str, create_present: bool, init_status: i32) -> (Result<(), LidarError>, Vec<&'static str>) {
    let mut calls = Vec::new();
    let (mut stage, mut action) = start_open(port);
    loop {
        let event = match action {
            OpenAction::CreateSession => {
                calls.push("create");
                OpenEvent::Created { present: create_present }
            }
            OpenAction::InitializeSession => {
                calls.push("initialize");
                OpenEvent::Initialized { status: init_status }
            }
            OpenAction::DestroySession => {
                calls.push("destroy");
                OpenEvent::Released
            }
            OpenAction::Succeed => return (Ok(()), calls),
            OpenAction::Fail(e) => return (Err(e), calls),
        };
        let (s, a) = open_step(stage, event);
        stage = s;
        action = a;
    }
}

#[test]
fn port_with_terminator_is_encoding_error() {
    assert_eq!(port_c_string("/dev/tty\0USB0"), Err(LidarError::EncodingError));
    assert_eq!(port_c_string("\0"), Err(LidarError::EncodingError));
    assert_eq!(
        start_open("/dev/ttyUSB0\0"),
        (OpenStage::Finished, OpenAction::Fail(LidarError::EncodingError))
    );
}

#[test]
fn port_encodes_with_terminator() {
    assert_eq!(port_c_string("/dev/ttyUSB0"), Ok(b"/dev/ttyUSB0\0".to_vec()));
    assert_eq!(port_c_string(""), Ok(vec![0u8]));
}

#[test]
fn terminator_path_makes_no_native_call() {
    let (r, calls) = drive("/dev/tty\0USB0", true, 0);
    assert_eq!(r, Err(LidarError::EncodingError));
    assert!(calls.is_empty());
}

#[test]
fn creation_failure_is_creation_error() {
    let (r, calls) = drive("/dev/ttyUSB0", false, 0);
    assert_eq!(r, Err(LidarError::CreationError));
    assert_eq!(calls, vec!["create"]);
}

#[test]
fn initialization_failure_destroys_once() {
    for status in [1, -1, 42, i32::MIN, i32::MAX] {
        let (r, calls) = drive("/dev/ttyUSB0", true, status);
        assert_eq!(r, Err(LidarError::InitializationError));
        assert_eq!(calls, vec!["create", "initialize", "destroy"]);
    }
}

#[test]
fn successful_open_keeps_session() {
    let (r, calls) = drive("/dev/ttyUSB0", true, 0);
    assert_eq!(r, Ok(()));
    assert_eq!(calls, vec!["create", "initialize"]);
}

#[test]
fn open_step_transitions() {
    assert_eq!(
        open_step(OpenStage::Creating, OpenEvent::Created { present: true }),
        (OpenStage::Initializing, OpenAction::InitializeSession)
    );
    assert_eq!(
        open_step(OpenStage::Initializing, OpenEvent::Initialized { status: 3 }),
        (OpenStage::Releasing, OpenAction::DestroySession)
    );
    assert_eq!(
        open_step(OpenStage::Releasing, OpenEvent::Released),
        (OpenStage::Finished, OpenAction::Fail(LidarError::InitializationError))
    );
}

#[test]
fn teardown_destroys_exactly_once() {
    let mut destroyed = 0;
    let mut lease = SessionLease::opened();
    assert!(lease.is_live());
    for _ in 0..3 {
        if lease.teardown() {
            destroyed += 1;
        }
    }
    assert_eq!(destroyed, 1);
    assert!(!lease.is_live());
}
