use rscapt::share::{attempt_step, check_file_size, expiry_idx, expiry_key_at, expiry_label_at, response_url,
    AttemptOutcome, AttemptStep, UploadError, EXPIRY_COUNT};
use rscapt::updater::{evaluate_release, is_newer, parse_semver, swap_script, update_paths, ReleaseAsset, UpdateError};

#[test]
fn expiry_choices() {
    let keys: Vec<&str> = (0..EXPIRY_COUNT).map(expiry_key_at).collect();
    assert_eq!(keys, vec!["1h", "12h", "24h", "72h", "1w"]);
    let labels: Vec<&str> = (0..EXPIRY_COUNT).map(expiry_label_at).collect();
    assert_eq!(labels, vec!["1 hour", "12 hours", "24 hours", "72 hours", "1 week"]);
    for (i, k) in keys.iter().enumerate() {
        assert_eq!(expiry_idx(k), i);
    }
    assert_eq!(expiry_idx("forever"), 4);
}

#[test]
fn upload_checks() {
    assert!(matches!(check_file_size(0), Err(UploadError::EmptyFile)));
    assert!(check_file_size(1).is_ok());
    let server_error = AttemptOutcome::Answer { status: 503, server_error: true };
    let ok = AttemptOutcome::Answer { status: 200, server_error: false };
    assert_eq!(attempt_step(1, server_error), AttemptStep::Retry);
    assert_eq!(attempt_step(3, server_error), AttemptStep::Accept);
    assert_eq!(attempt_step(1, ok), AttemptStep::Accept);
    assert_eq!(attempt_step(2, AttemptOutcome::NoAnswer), AttemptStep::Retry);
    assert_eq!(attempt_step(3, AttemptOutcome::NoAnswer), AttemptStep::GiveUp);
}

#[test]
fn upload_answers() {
    assert_eq!(response_url(true, 200, "  https://litter.catbox.moe/ab12cd.mp4\n").unwrap(), "https://litter.catbox.moe/ab12cd.mp4");
    assert!(matches!(response_url(false, 413, "too big"), Err(UploadError::HttpStatus(413))));
    match response_url(true, 200, " oops ") {
        Err(UploadError::UnexpectedResponse(t)) => assert_eq!(t, "oops"),
        other => panic!("unexpected {:?}", other),
    }
    assert!(matches!(response_url(true, 200, "   "), Err(UploadError::UnexpectedResponse(_))));
}

#[test]
fn semantic_versions() {
    assert_eq!(parse_semver("1.2.3"), (1, 2, 3));
    assert_eq!(parse_semver("1.2"), (1, 2, 0));
    assert_eq!(parse_semver("1.2.3.4"), (1, 2, 0));
    assert_eq!(parse_semver("1.x.3"), (1, 0, 3));
    assert_eq!(parse_semver(""), (0, 0, 0));
    assert!(is_newer("0.3.0", "0.2.9"));
    assert!(is_newer("1.0.0", "0.99.99"));
    assert!(!is_newer("0.2.0", "0.2.0"));
    assert!(!is_newer("0.1.9", "0.2.0"));
    assert!(is_newer("0.2.10", "0.2.9"));
}

fn assets() -> Vec<ReleaseAsset> {
    vec![
        ReleaseAsset { name: "checksums.txt".to_string(), browser_download_url: "u0".to_string() },
        ReleaseAsset { name: "rscapt-v0.3.0-windows-x64.zip".to_string(), browser_download_url: "u1".to_string() },
        ReleaseAsset { name: "rscapt-v0.3.0-windows-x64.exe".to_string(), browser_download_url: "u2".to_string() },
        ReleaseAsset { name: "rscapt-v0.3.0-windows-x64-debug.exe".to_string(), browser_download_url: "u3".to_string() },
    ]
}

#[test]
fn release_decisions() {
    let r = evaluate_release("v0.3.0".to_string(), &assets(), "0.2.1").unwrap().unwrap();
    assert_eq!(r.version, "v0.3.0");
    assert_eq!(r.download_url, "u2");
    assert!(evaluate_release("v0.2.1".to_string(), &assets(), "0.2.1").unwrap().is_none());
    assert!(evaluate_release("vv0.1.0".to_string(), &assets(), "0.2.1").unwrap().is_none());
    match evaluate_release("v9.0.0".to_string(), &vec![], "0.2.1") {
        Err(e) => {
            assert_eq!(e, UpdateError::NoWindowsAsset("v9.0.0".to_string()));
            assert_eq!(e.message(), "No Windows exe asset in release v9.0.0");
        }
        other => panic!("unexpected {:?}", other),
    }
}

#[test]
fn swap_script_quotes_paths() {
    assert_eq!(
        swap_script("C:\\Temp\\rscapt-update.exe", "C:\\Users\\o'brien\\rscapt.exe"),
        "Stop-Process -Name rscapt -Force -ErrorAction SilentlyContinue; Start-Sleep -Seconds 2; \
         Copy-Item -Force 'C:\\Temp\\rscapt-update.exe' 'C:\\Users\\o''brien\\rscapt.exe'; \
         Remove-Item 'C:\\Temp\\rscapt-update.exe' -ErrorAction SilentlyContinue"
    );
    let (tmp, dest) = update_paths(Some("C:\\Users\\me\\AppData\\Local"), "C:\\Temp");
    assert_eq!(tmp, "C:\\Temp\\rscapt-update.exe");
    assert_eq!(dest, "C:\\Users\\me\\AppData\\Local\\rscapt\\rscapt.exe");
    assert_eq!(update_paths(None, "T").1, ".\\rscapt\\rscapt.exe");
}

#[test]
fn upload_request_fields() {
    let r = rscapt::share::upload_request("72h");
    assert_eq!(r.url, "https://litterbox.catbox.moe/resources/internals/api.php");
    assert_eq!(
        r.fields,
        vec![("reqtype".to_string(), "fileupload".to_string()), ("time".to_string(), "72h".to_string())]
    );
    assert_eq!(r.file_field, "fileToUpload");
}
