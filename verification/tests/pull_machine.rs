use std::io::Write;

use minibox::executor::execution_result;
use minibox::image::ImageRef;
use minibox::pull::{pull_image, PullAction, PullEvent, PullPhase};
use minibox::registry::default_endpoint;
use minibox::rootprep::seed_relative_path;
use minibox::errors::RunError;

fn gzip(data: &[u8]) -> Vec<u8> {
    let mut enc = flate2::write::GzEncoder::new(Vec::new(), flate2::Compression::default());
    enc.write_all(data).unwrap();
    enc.finish().unwrap()
}

fn response(status: u16, body: &[u8]) -> PullEvent {
    PullEvent::Response { transport_ok: true, status, body: body.to_vec() }
}

#[test]
fn scenario_run_alpine_latest() {
    let image = ImageRef::parse("alpine:latest");
    let (mut pull, action) = pull_image(default_endpoint(), image);

    let url = match action {
        PullAction::FetchToken { url } => url,
        other => panic!("expected FetchToken, got {:?}", other),
    };
    assert_eq!(
        url,
        "https://auth.docker.io/token?service=registry.docker.io&scope=repository:library/alpine:pull"
    );

    let action = pull.step(response(200, br#"{"token":"tok123"}"#));
    let (url, token) = match action {
        PullAction::FetchManifest { url, token } => (url, token),
        other => panic!("expected FetchManifest, got {:?}", other),
    };
    assert_eq!(url, "https://registry.hub.docker.com/v2/library/alpine/manifests/latest");
    assert_eq!(token, "tok123");

    let manifest = br#"{"fsLayers":[{"blobSum":"sha256:layer1"}]}"#;
    let action = pull.step(response(200, manifest));
    let (url, token) = match action {
        PullAction::FetchBlob { url, token } => (url, token),
        other => panic!("expected FetchBlob, got {:?}", other),
    };
    assert_eq!(url, "https://registry.hub.docker.com/v2/library/alpine/blobs/sha256:layer1");
    assert_eq!(token, "tok123");

    let payload = b"tar bytes of the alpine layer";
    let action = pull.step(response(200, &gzip(payload)));
    let archive = match action {
        PullAction::ExtractArchive { archive } => archive,
        other => panic!("expected ExtractArchive, got {:?}", other),
    };
    assert_eq!(archive, payload.to_vec());

    let action = pull.step(PullEvent::Extracted { ok: true });
    assert!(matches!(action, PullAction::Finish));
    assert_eq!(pull.phase, PullPhase::Complete);
    assert!(!pull.is_in_progress());

    assert_eq!(seed_relative_path("/bin/echo"), "bin/echo");
    let result = execution_result(b"hello\n".to_vec(), Vec::new(), Some(0));
    assert_eq!(result.stdout, b"hello\n".to_vec());
    assert_eq!(result.exit_code, 0);
}

#[test]
fn scenario_auth_failure_stops_before_any_layer() {
    let image = ImageRef::parse("alpine:latest");
    let (mut pull, action) = pull_image(default_endpoint(), image);
    assert!(matches!(action, PullAction::FetchToken { .. }));

    let action = pull.step(response(503, b"busy"));
    let error = match action {
        PullAction::Abort { error } => error,
        other => panic!("expected Abort, got {:?}", other),
    };
    assert!(matches!(&error, RunError::AuthError { image } if image == "alpine"));
    assert!(error.message().starts_with("AuthError"));
    assert_eq!(error.exit_code(), 1);
    assert_eq!(pull.phase, PullPhase::Failed);
    assert!(!pull.is_in_progress());
    assert!(pull.digests.is_empty());
}

#[test]
fn scenario_layers_fetched_in_manifest_order() {
    let image = ImageRef::parse("ubuntu");
    let (mut pull, _) = pull_image(default_endpoint(), image);
    pull.step(response(200, br#"{"token":"t"}"#));
    let manifest = br#"{"fsLayers":[{"blobSum":"sha256:base"},{"blobSum":"sha256:top"}]}"#;

    let action = pull.step(response(200, manifest));
    match action {
        PullAction::FetchBlob { url, .. } => {
            assert_eq!(url, "https://registry.hub.docker.com/v2/library/ubuntu/blobs/sha256:base")
        }
        other => panic!("expected FetchBlob, got {:?}", other),
    }
    let action = pull.step(response(200, &gzip(b"base layer")));
    assert!(matches!(action, PullAction::ExtractArchive { .. }));

    let action = pull.step(PullEvent::Extracted { ok: true });
    match action {
        PullAction::FetchBlob { url, .. } => {
            assert_eq!(url, "https://registry.hub.docker.com/v2/library/ubuntu/blobs/sha256:top")
        }
        other => panic!("expected FetchBlob, got {:?}", other),
    }
    let action = pull.step(response(200, &gzip(b"top layer")));
    assert!(matches!(action, PullAction::ExtractArchive { .. }));
    let action = pull.step(PullEvent::Extracted { ok: true });
    assert!(matches!(action, PullAction::Finish));
    assert_eq!(pull.phase, PullPhase::Complete);
}

#[test]
fn scenario_empty_manifest_completes_and_still_runs() {
    let image = ImageRef::parse("scratch");
    let (mut pull, _) = pull_image(default_endpoint(), image);
    pull.step(response(200, br#"{"token":"t"}"#));
    let action = pull.step(response(200, br#"{"fsLayers":[]}"#));
    assert!(matches!(action, PullAction::Finish));
    assert_eq!(pull.phase, PullPhase::Complete);

    let result = execution_result(b"ran anyway\n".to_vec(), Vec::new(), Some(0));
    assert_eq!(result.stdout, b"ran anyway\n".to_vec());
    assert_eq!(result.exit_code, 0);
}

#[test]
fn scenario_manifest_not_found() {
    let image = ImageRef::parse("alpine:nosuch");
    let (mut pull, _) = pull_image(default_endpoint(), image);
    pull.step(response(200, br#"{"token":"t"}"#));
    let action = pull.step(response(404, b"{}"));
    let error = match action {
        PullAction::Abort { error } => error,
        other => panic!("expected Abort, got {:?}", other),
    };
    assert!(
        matches!(&error, RunError::NotFoundError { image, tag } if image == "alpine" && tag == "nosuch")
    );
}

#[test]
fn scenario_corrupt_blob_names_digest() {
    let image = ImageRef::parse("alpine");
    let (mut pull, _) = pull_image(default_endpoint(), image);
    pull.step(response(200, br#"{"token":"t"}"#));
    pull.step(response(200, br#"{"fsLayers":[{"blobSum":"sha256:bad"}]}"#));
    let action = pull.step(response(200, b"not gzip"));
    let error = match action {
        PullAction::Abort { error } => error,
        other => panic!("expected Abort, got {:?}", other),
    };
    assert!(matches!(&error, RunError::LayerExtractionError { digest } if digest == "sha256:bad"));
    assert_eq!(pull.phase, PullPhase::Failed);
}

#[test]
fn scenario_extraction_failure_names_digest() {
    let image = ImageRef::parse("alpine");
    let (mut pull, _) = pull_image(default_endpoint(), image);
    pull.step(response(200, br#"{"token":"t"}"#));
    pull.step(response(200, br#"{"fsLayers":[{"blobSum":"sha256:only"}]}"#));
    pull.step(response(200, &gzip(b"layer")));
    let action = pull.step(PullEvent::Extracted { ok: false });
    let error = match action {
        PullAction::Abort { error } => error,
        other => panic!("expected Abort, got {:?}", other),
    };
    assert!(matches!(&error, RunError::LayerExtractionError { digest } if digest == "sha256:only"));
}

#[test]
fn scenario_blob_transport_failure_is_network_error() {
    let image = ImageRef::parse("alpine");
    let (mut pull, _) = pull_image(default_endpoint(), image);
    pull.step(response(200, br#"{"token":"t"}"#));
    pull.step(response(200, br#"{"fsLayers":[{"blobSum":"sha256:x"}]}"#));
    let action = pull.step(PullEvent::Response { transport_ok: false, status: 0, body: Vec::new() });
    assert!(matches!(action, PullAction::Abort { error: RunError::NetworkError }));
}
