use std::io::Write;

use minibox::errors::RunError;
use minibox::image::ImageRef;
use minibox::isolate::IsolationOp;
use minibox::pull::{PullAction, PullEvent};
use minibox::registry::default_endpoint;
use minibox::session::{start_session, SessionAction, SessionEvent, SessionPhase};

fn gzip(data: &[u8]) -> Vec<u8> {
    let mut enc = flate2::write::GzEncoder::new(Vec::new(), flate2::Compression::default());
    enc.write_all(data).unwrap();
    enc.finish().unwrap()
}

fn pulled(status: u16, body: &[u8]) -> SessionEvent {
    SessionEvent::Pulled {
        event: PullEvent::Response { transport_ok: true, status, body: body.to_vec() },
    }
}

#[test]
fn local_root_mode_skips_materialization() {
    let (mut s, action) = start_session(
        default_endpoint(),
        None,
        "/bin/echo".to_string(),
        vec!["hello".to_string()],
    );
    assert!(matches!(action, SessionAction::StageRoot));

    let action = s.step(SessionEvent::Staged { ok: true });
    assert!(
        matches!(&action, SessionAction::SeedExecutable { relative_path } if relative_path == "bin/echo")
    );

    let action = s.step(SessionEvent::Seeded { ok: true });
    assert!(
        matches!(&action, SessionAction::SeedDevNull { relative_path } if relative_path == "dev/null")
    );

    let action = s.step(SessionEvent::DeviceSeeded { ok: true });
    assert!(matches!(action, SessionAction::Isolate { op: IsolationOp::SwitchRoot }));

    let action = s.step(SessionEvent::Isolated { ok: true });
    assert!(matches!(action, SessionAction::Isolate { op: IsolationOp::UnsharePidNamespace }));

    let action = s.step(SessionEvent::Isolated { ok: true });
    let (command, args) = match action {
        SessionAction::Spawn { command, args } => (command, args),
        other => panic!("expected Spawn, got {:?}", other),
    };
    assert_eq!(command, "/bin/echo");
    assert_eq!(args, vec!["hello".to_string()]);

    let action = s.step(SessionEvent::Spawned {
        ok: true,
        stdout: b"hello\n".to_vec(),
        stderr: Vec::new(),
        code: Some(0),
    });
    let result = match action {
        SessionAction::EmitAndExit { result } => result,
        other => panic!("expected EmitAndExit, got {:?}", other),
    };
    assert_eq!(result.stdout, b"hello\n".to_vec());
    assert_eq!(result.exit_code, 0);
    assert_eq!(s.phase, SessionPhase::Finished);
    assert!(!s.is_in_progress());
}

#[test]
fn image_mode_isolates_only_after_all_layers() {
    let image = ImageRef::parse("alpine:latest");
    let (mut s, action) = start_session(
        default_endpoint(),
        Some(image),
        "/bin/echo".to_string(),
        vec!["hello".to_string()],
    );
    assert!(matches!(action, SessionAction::StageRoot));
    s.step(SessionEvent::Staged { ok: true });
    s.step(SessionEvent::Seeded { ok: true });

    let action = s.step(SessionEvent::DeviceSeeded { ok: true });
    match action {
        SessionAction::Pull { action: PullAction::FetchToken { url } } => assert_eq!(
            url,
            "https://auth.docker.io/token?service=registry.docker.io&scope=repository:library/alpine:pull"
        ),
        other => panic!("expected the token fetch, got {:?}", other),
    }

    let action = s.step(pulled(200, br#"{"token":"tok"}"#));
    assert!(matches!(action, SessionAction::Pull { action: PullAction::FetchManifest { .. } }));

    let action = s.step(pulled(200, br#"{"fsLayers":[{"blobSum":"sha256:l1"}]}"#));
    assert!(matches!(action, SessionAction::Pull { action: PullAction::FetchBlob { .. } }));

    let action = s.step(pulled(200, &gzip(b"layer bytes")));
    assert!(matches!(action, SessionAction::Pull { action: PullAction::ExtractArchive { .. } }));
    assert_eq!(s.phase, SessionPhase::Materializing);

    let action = s.step(SessionEvent::Pulled { event: PullEvent::Extracted { ok: true } });
    assert!(matches!(action, SessionAction::Isolate { op: IsolationOp::SwitchRoot }));
    assert_eq!(s.phase, SessionPhase::Isolating);

    let action = s.step(SessionEvent::Isolated { ok: true });
    assert!(matches!(action, SessionAction::Isolate { op: IsolationOp::UnsharePidNamespace }));
    let action = s.step(SessionEvent::Isolated { ok: true });
    assert!(matches!(action, SessionAction::Spawn { .. }));

    let action = s.step(SessionEvent::Spawned {
        ok: true,
        stdout: b"hello\n".to_vec(),
        stderr: Vec::new(),
        code: Some(0),
    });
    let result = match action {
        SessionAction::EmitAndExit { result } => result,
        other => panic!("expected EmitAndExit, got {:?}", other),
    };
    assert_eq!(result.stdout, b"hello\n".to_vec());
    assert_eq!(result.exit_code, 0);
}

#[test]
fn staging_failure_ends_the_run() {
    let (mut s, _) =
        start_session(default_endpoint(), None, "/bin/true".to_string(), Vec::new());
    let action = s.step(SessionEvent::Staged { ok: false });
    let error = match action {
        SessionAction::FailAndExit { error } => error,
        other => panic!("expected FailAndExit, got {:?}", other),
    };
    assert!(matches!(error, RunError::IoError));
    assert_eq!(error.exit_code(), 1);
    assert_eq!(s.phase, SessionPhase::Failed);
}

#[test]
fn seed_failure_names_the_command() {
    let (mut s, _) =
        start_session(default_endpoint(), None, "/bin/true".to_string(), Vec::new());
    s.step(SessionEvent::Staged { ok: true });
    let action = s.step(SessionEvent::Seeded { ok: false });
    let error = match action {
        SessionAction::FailAndExit { error } => error,
        other => panic!("expected FailAndExit, got {:?}", other),
    };
    assert!(matches!(&error, RunError::SeedError { path } if path == "/bin/true"));
    assert!(error.message().starts_with("SeedError"));
}

#[test]
fn isolation_denial_fails_closed() {
    let (mut s, _) =
        start_session(default_endpoint(), None, "/bin/true".to_string(), Vec::new());
    s.step(SessionEvent::Staged { ok: true });
    s.step(SessionEvent::Seeded { ok: true });
    s.step(SessionEvent::DeviceSeeded { ok: true });
    let action = s.step(SessionEvent::Isolated { ok: false });
    let error = match action {
        SessionAction::FailAndExit { error } => error,
        other => panic!("expected FailAndExit, got {:?}", other),
    };
    assert!(matches!(error, RunError::PrivilegeError));
    assert_eq!(s.phase, SessionPhase::Failed);
}

#[test]
fn spawn_failure_reports_command_and_args_and_exits_one() {
    let (mut s, _) = start_session(
        default_endpoint(),
        None,
        "/bin/missing".to_string(),
        vec!["x".to_string(), "y".to_string()],
    );
    s.step(SessionEvent::Staged { ok: true });
    s.step(SessionEvent::Seeded { ok: true });
    s.step(SessionEvent::DeviceSeeded { ok: true });
    s.step(SessionEvent::Isolated { ok: true });
    s.step(SessionEvent::Isolated { ok: true });
    let action = s.step(SessionEvent::Spawned {
        ok: false,
        stdout: Vec::new(),
        stderr: Vec::new(),
        code: None,
    });
    let error = match action {
        SessionAction::FailAndExit { error } => error,
        other => panic!("expected FailAndExit, got {:?}", other),
    };
    assert_eq!(
        error.message(),
        "SpawnError: tried to run '/bin/missing' with arguments x y"
    );
    assert_eq!(error.exit_code(), 1);
}

#[test]
fn abnormal_child_termination_exits_one() {
    let (mut s, _) =
        start_session(default_endpoint(), None, "/bin/true".to_string(), Vec::new());
    s.step(SessionEvent::Staged { ok: true });
    s.step(SessionEvent::Seeded { ok: true });
    s.step(SessionEvent::DeviceSeeded { ok: true });
    s.step(SessionEvent::Isolated { ok: true });
    s.step(SessionEvent::Isolated { ok: true });
    let action = s.step(SessionEvent::Spawned {
        ok: true,
        stdout: Vec::new(),
        stderr: Vec::new(),
        code: None,
    });
    let result = match action {
        SessionAction::EmitAndExit { result } => result,
        other => panic!("expected EmitAndExit, got {:?}", other),
    };
    assert_eq!(result.exit_code, 1);
}

#[test]
fn child_exit_code_propagates() {
    let (mut s, _) =
        start_session(default_endpoint(), None, "/bin/false".to_string(), Vec::new());
    s.step(SessionEvent::Staged { ok: true });
    s.step(SessionEvent::Seeded { ok: true });
    s.step(SessionEvent::DeviceSeeded { ok: true });
    s.step(SessionEvent::Isolated { ok: true });
    s.step(SessionEvent::Isolated { ok: true });
    let action = s.step(SessionEvent::Spawned {
        ok: true,
        stdout: Vec::new(),
        stderr: b"boom\n".to_vec(),
        code: Some(42),
    });
    let result = match action {
        SessionAction::EmitAndExit { result } => result,
        other => panic!("expected EmitAndExit, got {:?}", other),
    };
    assert_eq!(result.stderr, b"boom\n".to_vec());
    assert_eq!(result.exit_code, 42);
}
