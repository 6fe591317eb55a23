use receipt_merger::compose::{engine_config, HeaderTrimMode, MergeOptions, SCALING_THRESHOLD_PIXELS};
use receipt_merger::error::ApiError;
use receipt_merger::staging::{ENGINE_DEPTH, Staging, StagingAction, StagingEvent, StagingPhase, TEMP_UPLOAD_DIRECTORY};

fn no_options() -> MergeOptions {
    MergeOptions::from_fields(None, None, None)
}

fn started() -> Staging {
    let (s, a) = Staging::begin("/tmp/up", "tok", no_options());
    match a {
        StagingAction::CheckLock { lock_path } => assert_eq!(lock_path, "/tmp/up/tok/.lock"),
        _ => panic!("expected a lock check"),
    }
    assert_eq!(s.dir, "/tmp/up/tok");
    s
}

fn step(s: Staging, ev: StagingEvent) -> (Staging, StagingAction) {
    assert!(s.accepts(&ev));
    s.step(ev)
}

fn receiving() -> Staging {
    let (s, a) = step(started(), StagingEvent::LockChecked { present: false });
    match a {
        StagingAction::Prepare { dir, lock_path } => {
            assert_eq!(dir, "/tmp/up/tok");
            assert_eq!(lock_path, "/tmp/up/tok/.lock");
        }
        _ => panic!("expected preparation"),
    }
    let (s, a) = step(s, StagingEvent::Prepared { failure: None });
    assert!(matches!(a, StagingAction::NextPart));
    s
}

fn png_part() -> StagingEvent {
    StagingEvent::PartOffered { content_type: Some("image/png".to_string()) }
}

fn expect_cleanup(a: &StagingAction) {
    match a {
        StagingAction::CleanUp { dir } => assert_eq!(dir, "/tmp/up/tok"),
        _ => panic!("expected clean-up"),
    }
}

#[test]
fn parts_are_persisted_by_arrival_index() {
    let mut s = receiving();
    let mut paths = Vec::new();
    for _ in 0..3 {
        let (s1, a) = step(s, png_part());
        match a {
            StagingAction::Persist { path } => paths.push(path),
            _ => panic!("expected a persist"),
        }
        let (s2, a) = step(s1, StagingEvent::Persisted { ok: true });
        assert!(matches!(a, StagingAction::NextPart));
        s = s2;
    }
    assert_eq!(paths, vec!["/tmp/up/tok/1.png", "/tmp/up/tok/2.png", "/tmp/up/tok/3.png"]);
    let (s, a) = step(s, StagingEvent::PartsDone);
    match a {
        StagingAction::Compose { dir, depth, config } => {
            assert_eq!(dir, "/tmp/up/tok");
            assert_eq!(depth, 10);
            assert_eq!(config, engine_config(no_options()));
        }
        _ => panic!("expected composition"),
    }
    let (s, a) = step(s, StagingEvent::Composed { failure: None });
    expect_cleanup(&a);
    let (s, a) = step(s, StagingEvent::CleanedUp { failure: None });
    assert_eq!(s.phase, StagingPhase::Finished);
    assert!(matches!(a, StagingAction::Respond { outcome: Ok(()) }));
}

#[test]
fn tenth_part_gets_two_digit_name() {
    let mut s = receiving();
    for _ in 0..9 {
        let (s1, _) = step(s, png_part());
        let (s2, _) = step(s1, StagingEvent::Persisted { ok: true });
        s = s2;
    }
    let (_, a) = step(s, png_part());
    assert!(matches!(a, StagingAction::Persist { path } if path == "/tmp/up/tok/10.png"));
}

#[test]
fn unsupported_type_is_rejected_after_cleanup() {
    let s = receiving();
    let (s, _) = step(s, png_part());
    let (s, _) = step(s, StagingEvent::Persisted { ok: true });
    let (s, a) = step(s, StagingEvent::PartOffered { content_type: Some("image/jpeg".to_string()) });
    expect_cleanup(&a);
    assert_eq!(s.phase, StagingPhase::CleaningUp);
    let (s, a) = step(s, StagingEvent::CleanedUp { failure: None });
    assert_eq!(s.phase, StagingPhase::Finished);
    match a {
        StagingAction::Respond { outcome: Err(e) } => {
            assert_eq!(e.status_code(), 400);
            match e {
                ApiError::InvalidParameter { message, sensitive_message } => {
                    assert_eq!(message, "Unsupported file type");
                    assert_eq!(sensitive_message.unwrap(), "File type image/jpeg is not supported");
                }
                _ => panic!("expected an invalid parameter"),
            }
        }
        _ => panic!("expected an error response"),
    }
}

#[test]
fn part_without_type_is_rejected_after_cleanup() {
    let (s, a) = step(receiving(), StagingEvent::PartOffered { content_type: None });
    expect_cleanup(&a);
    let (_, a) = step(s, StagingEvent::CleanedUp { failure: Some("busy".to_string()) });
    match a {
        StagingAction::Respond { outcome: Err(ApiError::InvalidParameter { message, sensitive_message }) } => {
            assert_eq!(message, "Invalid image");
            assert_eq!(sensitive_message.unwrap(), "Cannot identifying file content type");
        }
        _ => panic!("expected an invalid parameter"),
    }
}

#[test]
fn lock_conflict_fails_without_writing() {
    let (s, a) = step(started(), StagingEvent::LockChecked { present: true });
    assert!(!s.dir_created);
    assert_eq!(s.phase, StagingPhase::Finished);
    match a {
        StagingAction::Respond { outcome: Err(e) } => {
            assert_eq!(e.status_code(), 500);
            assert!(matches!(e, ApiError::ImageUploadError { message } if message == "Failed to upload image"));
        }
        _ => panic!("expected an upload error"),
    }
}

#[test]
fn prepare_failure_still_cleans_up() {
    let (s, _) = step(started(), StagingEvent::LockChecked { present: false });
    let (s, a) = step(s, StagingEvent::Prepared { failure: Some("disk full".to_string()) });
    expect_cleanup(&a);
    let (_, a) = step(s, StagingEvent::CleanedUp { failure: None });
    match a {
        StagingAction::Respond { outcome: Err(e) } => {
            assert_eq!(e.status_code(), 500);
            assert!(matches!(e, ApiError::IoError { description } if description == "disk full"));
        }
        _ => panic!("expected an I/O error"),
    }
}

#[test]
fn persist_failure_cleans_up_and_reports_upload_error() {
    let (s, _) = step(receiving(), png_part());
    let (s, a) = step(s, StagingEvent::Persisted { ok: false });
    expect_cleanup(&a);
    let (_, a) = step(s, StagingEvent::CleanedUp { failure: None });
    assert!(matches!(a, StagingAction::Respond { outcome: Err(ApiError::ImageUploadError { .. }) }));
}

#[test]
fn engine_failure_cleans_up_and_reports_process_error() {
    let (s, _) = step(receiving(), StagingEvent::PartsDone);
    let (s, a) = step(s, StagingEvent::Composed { failure: Some("no header found".to_string()) });
    expect_cleanup(&a);
    let (_, a) = step(s, StagingEvent::CleanedUp { failure: None });
    match a {
        StagingAction::Respond { outcome: Err(e) } => {
            assert_eq!(e.status_code(), 400);
            assert!(matches!(e, ApiError::ImageProcessFailed { description } if description == "no header found"));
        }
        _ => panic!("expected a process error"),
    }
}

#[test]
fn cleanup_failure_after_success_is_an_io_error() {
    let (s, _) = step(receiving(), StagingEvent::PartsDone);
    let (s, _) = step(s, StagingEvent::Composed { failure: None });
    let (_, a) = step(s, StagingEvent::CleanedUp { failure: Some("denied".to_string()) });
    assert!(matches!(a, StagingAction::Respond { outcome: Err(ApiError::IoError { description }) } if description == "denied"));
}

#[test]
fn out_of_order_events_are_not_accepted() {
    let s = started();
    assert!(!s.accepts(&StagingEvent::PartsDone));
    assert!(!s.accepts(&StagingEvent::CleanedUp { failure: None }));
    let (done, _) = step(s, StagingEvent::LockChecked { present: true });
    assert!(!done.accepts(&StagingEvent::LockChecked { present: false }));
}

#[test]
fn started_session_uses_fresh_token() {
    let (s, a) = Staging::start(TEMP_UPLOAD_DIRECTORY, no_options());
    assert!(s.dir.starts_with("./images-temp/"));
    let token = &s.dir["./images-temp/".len()..];
    assert_eq!(token.len(), 36);
    assert!(token.chars().all(|c| c.is_ascii_hexdigit() && !c.is_ascii_uppercase() || c == '-'));
    assert!(matches!(a, StagingAction::CheckLock { lock_path } if lock_path == format!("{}/.lock", s.dir)));
    let (t, _) = Staging::start(TEMP_UPLOAD_DIRECTORY, no_options());
    assert_ne!(s.dir, t.dir);
}

#[test]
fn margin_only_keeps_close_button() {
    let options = MergeOptions::from_fields(Some(1), Some(0), Some(0));
    let c = engine_config(options);
    assert_eq!(c.header_trim_mode, Some(HeaderTrimMode::TrimMarginOnly));
    assert!(c.do_merge_close_button);
    assert_eq!(c.scaling_threshold_pixels, Some(SCALING_THRESHOLD_PIXELS));
    assert_eq!(SCALING_THRESHOLD_PIXELS, 540000);
    assert_eq!(ENGINE_DEPTH, 10);
}

#[test]
fn title_flag_ignored_without_margin() {
    for title in [None, Some(0), Some(1), Some(-3)] {
        let c = engine_config(MergeOptions::from_fields(Some(0), None, title));
        assert_eq!(c.header_trim_mode, None);
    }
    let c = engine_config(MergeOptions::from_fields(None, None, Some(1)));
    assert_eq!(c.header_trim_mode, None);
}

#[test]
fn margin_and_title_trim_title_bar() {
    let c = engine_config(MergeOptions::from_fields(Some(1), Some(1), Some(1)));
    assert_eq!(c.header_trim_mode, Some(HeaderTrimMode::TrimTitleBar));
    assert!(!c.do_merge_close_button);
}

#[test]
fn flags_read_nonzero_as_true() {
    let o = MergeOptions::from_fields(Some(2), Some(-1), Some(0));
    assert!(o.trim_margin);
    assert!(o.trim_close_button);
    assert!(!o.trim_title);
}

#[test]
fn each_error_kind_has_its_status() {
    let s = |e: ApiError| e.status_code();
    assert_eq!(s(ApiError::EndpointNotFound { path: "/x".to_string() }), 404);
    assert_eq!(s(ApiError::ResourceNotFound { id: "1".to_string() }), 404);
    assert_eq!(s(ApiError::InvalidParameter { message: "m".to_string(), sensitive_message: None }), 400);
    assert_eq!(s(ApiError::IoError { description: "d".to_string() }), 500);
    assert_eq!(s(ApiError::ImageUploadError { message: "m".to_string() }), 500);
    assert_eq!(s(ApiError::ImageGenerateError { message: "m".to_string() }), 400);
    assert_eq!(s(ApiError::ImageProcessFailed { description: "d".to_string() }), 400);
}
