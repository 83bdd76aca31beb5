use anonhive_worker::accel::{accel_from_listing, detect_accel, HardwareAccel};
use anonhive_worker::api::{
    login_request, login_url, login_verdict, progress_payload, worker_headers, LoginResponse,
    WorkerConfig,
};
use anonhive_worker::host::{name_from_command, name_from_environment};
use anonhive_worker::settings::{Settings, Variables};
use anonhive_worker::status::HttpStatus;

fn full() -> Variables {
    Variables {
        api_base_url: Some("https://api.example".to_string()),
        admin_email: Some("me@example".to_string()),
        admin_password: Some("word".to_string()),
        r2_endpoint: Some("https://store.example".to_string()),
        r2_access_key: Some("key".to_string()),
        r2_secret_key: Some("other".to_string()),
        r2_bucket: Some("videos".to_string()),
        r2_public_url: Some("https://cdn.example".to_string()),
        ffmpeg_path: Some("/opt/ffmpeg".to_string()),
        ffprobe_path: Some("/opt/ffprobe".to_string()),
    }
}

#[test]
fn settings_come_from_the_variables() {
    let settings = Settings::from_variables(full()).unwrap();
    assert_eq!(settings.api_base_url, "https://api.example");
    assert_eq!(settings.email, "me@example");
    assert_eq!(settings.password, "word");
    assert_eq!(settings.s3_endpoint, "https://store.example");
    assert_eq!(settings.s3_access_key, "key");
    assert_eq!(settings.s3_secret_key, "other");
    assert_eq!(settings.s3_bucket, "videos");
    assert_eq!(settings.s3_public_url, "https://cdn.example");
    assert_eq!(settings.ffmpeg_path, "/opt/ffmpeg");
    assert_eq!(settings.ffprobe_path, "/opt/ffprobe");
}

#[test]
fn settings_have_defaults() {
    let vars = Variables { api_base_url: None, ffmpeg_path: None, ffprobe_path: None, ..full() };
    let settings = Settings::from_variables(vars).unwrap();
    assert_eq!(settings.api_base_url, "http://localhost:8080");
    assert_eq!(settings.ffmpeg_path, "ffmpeg");
    assert_eq!(settings.ffprobe_path, "ffprobe");
}

#[test]
fn settings_name_the_first_missing_variable() {
    let missing = |vars: Variables| Settings::from_variables(vars).unwrap_err();
    assert_eq!(missing(Variables { admin_email: None, r2_bucket: None, ..full() }), "ADMIN_EMAIL");
    assert_eq!(missing(Variables { admin_password: None, ..full() }), "ADMIN_PASSWORD");
    assert_eq!(missing(Variables { r2_endpoint: None, ..full() }), "R2_ENDPOINT");
    assert_eq!(missing(Variables { r2_access_key: None, ..full() }), "R2_ACCESS_KEY");
    assert_eq!(missing(Variables { r2_secret_key: None, ..full() }), "R2_SECRET_KEY");
    assert_eq!(missing(Variables { r2_bucket: None, r2_public_url: None, ..full() }), "R2_BUCKET");
    assert_eq!(missing(Variables { r2_public_url: None, ..full() }), "R2_PUBLIC_URL");
}

#[test]
fn login_is_asked_for_as_the_server_wants_it() {
    assert_eq!(login_url("http://localhost:8080"), "http://localhost:8080/api/v1/auth/login");
    let body = login_request("me@example", "word");
    assert_eq!(body.email, "me@example");
    assert_eq!(body.password, "word");
    assert_eq!(body.turnstile_token, "bypass-local-transcoder");
}

#[test]
fn a_login_is_judged_by_its_status() {
    let verdict = |code: u16| login_verdict(&HttpStatus::from_u16(code).unwrap(), "no such user");
    assert_eq!(verdict(200), Ok(()));
    assert_eq!(verdict(299), Ok(()));
    for code in [199, 300, 401, 409, 500] {
        assert_eq!(verdict(code), Err("Failed to login: no such user".to_string()));
    }
}

#[test]
fn config_knows_the_addresses() {
    let settings = Settings::from_variables(full()).unwrap();
    let login = LoginResponse { token: "t0".to_string() };
    let config = WorkerConfig::new(settings, login, HardwareAccel::Nvenc);
    assert_eq!(config.token, "t0");
    assert_eq!(config.s3_bucket, "videos");
    assert_eq!(config.s3_public_url, "https://cdn.example");
    assert_eq!(config.ffmpeg_path, "/opt/ffmpeg");
    assert_eq!(config.ffprobe_path, "/opt/ffprobe");
    assert_eq!(config.accel, HardwareAccel::Nvenc);
    assert_eq!(config.pending_url(), "https://api.example/api/v1/admin/transcode/pending");
    assert_eq!(config.claim_url(7), "https://api.example/api/v1/admin/transcode/claim/7");
    assert_eq!(config.progress_url(-1), "https://api.example/api/v1/admin/transcode/progress/-1");
    assert_eq!(config.complete_url(42), "https://api.example/api/v1/admin/transcode/complete/42");
}

#[test]
fn a_worker_presents_itself() {
    let headers = worker_headers("box", "linux", HardwareAccel::Absent);
    assert_eq!(
        headers,
        vec![
            ("X-Worker-Name", "box".to_string()),
            ("X-Worker-OS", "linux".to_string()),
            ("X-Worker-Accel", "None".to_string()),
        ]
    );
    assert_eq!(HardwareAccel::Nvenc.name(), "Nvenc");
    assert_eq!(HardwareAccel::VideoToolbox.name(), "VideoToolbox");
    assert_eq!(progress_payload("half way").message, "half way");
}

#[test]
fn the_environment_names_a_worker_first() {
    let name = |s: &str| Some(s.to_string());
    assert_eq!(name_from_environment(name("pc"), name("box")), name("pc"));
    assert_eq!(name_from_environment(None, name("box")), name("box"));
    assert_eq!(name_from_environment(None, None), None);
}

#[test]
fn a_command_names_a_worker_next() {
    assert_eq!(name_from_command(Some(b" box.local\n".to_vec())), "box.local");
    assert_eq!(name_from_command(Some("b\u{e9}\u{2003}".as_bytes().to_vec())), "b\u{e9}");
    assert_eq!(name_from_command(Some(Vec::new())), "");
    assert_eq!(name_from_command(Some(vec![b'a', 0xff])), "Unknown-Worker");
    assert_eq!(name_from_command(None), "Unknown-Worker");
}

#[test]
fn nvenc_comes_before_videotoolbox() {
    let both = "V..... h264_videotoolbox\n V..... h264_nvenc\n";
    assert_eq!(accel_from_listing(both, ""), HardwareAccel::Nvenc);
    assert_eq!(accel_from_listing("h264_videotoolbox", "h264_nvenc"), HardwareAccel::Nvenc);
    assert_eq!(accel_from_listing("", "h264_videotoolbox"), HardwareAccel::VideoToolbox);
    assert_eq!(accel_from_listing("libx264 h264_nven", "hevc_nvenc"), HardwareAccel::Absent);
}

#[test]
fn listings_are_read_from_bytes() {
    let listing = b"\xff V..... h264_nvenc \xc3".to_vec();
    assert_eq!(detect_accel(Some((listing, Vec::new()))), HardwareAccel::Nvenc);
    let listing = b" h264_videotoolbox ".to_vec();
    assert_eq!(detect_accel(Some((Vec::new(), listing))), HardwareAccel::VideoToolbox);
    assert_eq!(detect_accel(Some((Vec::new(), Vec::new()))), HardwareAccel::Absent);
    assert_eq!(detect_accel(None), HardwareAccel::Absent);
}

#[test]
fn statuses_are_told_apart() {
    let status = |code: u16| HttpStatus::from_u16(code).unwrap();
    assert!(!status(199).is_success());
    assert!(status(200).is_success());
    assert!(status(299).is_success());
    assert!(!status(300).is_success());
    assert!(status(409).is_conflict());
    assert!(!status(404).is_conflict());
    assert!(HttpStatus::from_u16(99).is_none());
    assert!(HttpStatus::from_u16(100).is_some());
    assert!(HttpStatus::from_u16(999).is_some());
    assert!(HttpStatus::from_u16(1000).is_none());
}

#[test]
fn statuses_are_written_with_their_phrase() {
    for code in 100..1000 {
        let text = HttpStatus::from_u16(code).unwrap().text();
        assert_eq!(text, reqwest::StatusCode::from_u16(code).unwrap().to_string());
        assert!(text.starts_with(&format!("{} ", code)));
    }
    assert_eq!(HttpStatus::from_u16(404).unwrap().text(), "404 Not Found");
    assert_eq!(HttpStatus::from_u16(299).unwrap().text(), "299 <unknown status code>");
}
