use repo_analyzer::api::{upload_reply, Reply};
use repo_analyzer::auth::{authenticate, AuthDecision};
use repo_analyzer::clock::Timestamp;
use repo_analyzer::keys::{fallback_name, generate_key, generated_key};
use repo_analyzer::store::{effective_content_type, public_url, StoreError};
use repo_analyzer::upload::{
    complete_upload, file_part_index, plan_upload, prepare_upload, resolve_setting, FormPart,
    UploadConfig, UploadError, UploadParams,
};
use std::collections::HashSet;

fn stamp() -> Timestamp {
    Timestamp { year: 2024, month: 3, day: 5, hour: 7, minute: 8, second: 9 }
}

fn config(mode: &str, key: Option<&str>) -> UploadConfig {
    UploadConfig {
        api_key: key.map(|k| k.to_string()),
        mode: mode.to_string(),
        default_bucket: None,
        default_region: None,
        domain: None,
    }
}

fn part(name: &str, filename: Option<&str>, content_type: Option<&str>, data: &[u8]) -> FormPart {
    FormPart {
        name: Some(name.to_string()),
        filename: filename.map(|f| f.to_string()),
        content_type: content_type.map(|c| c.to_string()),
        data: data.to_vec(),
    }
}

fn is_lower_hex(c: char) -> bool {
    c.is_ascii_digit() || ('a'..='f').contains(&c)
}

fn check_generated_key(key: &str, filename: &str) {
    let chars: Vec<char> = key.chars().collect();
    assert_eq!(chars.len(), 37 + filename.chars().count());
    assert!(key.starts_with("reports/"));
    let stamp: String = chars[8..27].iter().collect();
    for (i, c) in stamp.chars().enumerate() {
        match i {
            4 | 7 | 13 | 16 => assert_eq!(c, '-'),
            10 => assert_eq!(c, 'T'),
            _ => assert!(c.is_ascii_digit()),
        }
    }
    assert_eq!(chars[27], '-');
    assert!(chars[28..36].iter().all(|c| is_lower_hex(*c)));
    assert_eq!(chars[36], '-');
    assert!(key.ends_with(filename));
}

#[test]
fn development_mode_needs_no_key() {
    let d = authenticate(&None, &Some("secret".to_string()), "development");
    assert_eq!(d, AuthDecision::Allow);
    let d = authenticate(&None, &None, "development");
    assert_eq!(d, AuthDecision::Allow);
}

#[test]
fn production_checks_the_shared_secret() {
    let expected = Some("secret".to_string());
    assert_eq!(authenticate(&Some("secret".to_string()), &expected, "production"), AuthDecision::Allow);
    assert_eq!(authenticate(&Some("wrong".to_string()), &expected, "production"), AuthDecision::Deny);
    assert_eq!(authenticate(&None, &expected, "production"), AuthDecision::Deny);
}

#[test]
fn missing_or_empty_configured_key_fails_closed() {
    assert_eq!(authenticate(&Some("".to_string()), &Some("".to_string()), "production"), AuthDecision::Deny);
    assert_eq!(authenticate(&Some("x".to_string()), &None, "production"), AuthDecision::Deny);
}

#[test]
fn upload_in_development_without_header_succeeds() {
    let parts = vec![part("file", Some("r.json"), Some("application/json"), b"{}")];
    let r = prepare_upload(&config("development", None), &None, &UploadParams::default(), parts);
    let plan = r.expect("upload accepted");
    check_generated_key(&plan.key, "r.json");
    assert_eq!(plan.bucket, "repo-analyzer");
    assert_eq!(plan.region, "eu-central-1");
}

#[test]
fn named_upload_with_explicit_key_needs_no_clock() {
    let params = UploadParams { bucket: None, region: None, key: Some("fixed/key.json".to_string()) };
    let parts = vec![part("file", Some("r.json"), Some("application/json"), b"{}")];
    let plan = prepare_upload(&config("development", None), &None, &params, parts).unwrap();
    assert_eq!(plan.key, "fixed/key.json");
    assert_eq!(plan.url, "https://repo-analyzer.s3.eu-central-1.amazonaws.com/fixed/key.json");
}

#[test]
fn upload_with_wrong_key_is_unauthorized() {
    let parts = vec![part("file", Some("r.json"), None, b"x")];
    let r = prepare_upload(
        &config("production", Some("secret")),
        &Some("wrong".to_string()),
        &UploadParams::default(),
        parts.clone(),
    );
    let e = r.err().expect("refused");
    assert!(matches!(e, UploadError::Unauthorized));
    assert_eq!(e.status_code(), 401);
    let r = prepare_upload(&config("production", Some("secret")), &None, &UploadParams::default(), parts.clone());
    assert!(matches!(r, Err(UploadError::Unauthorized)));
    let r = prepare_upload(
        &config("production", Some("secret")),
        &Some("secret".to_string()),
        &UploadParams::default(),
        parts,
    );
    assert!(r.is_ok());
}

#[test]
fn upload_without_file_field_is_bad_request() {
    let parts = vec![part("other", Some("r.json"), None, b"x")];
    let r = plan_upload(&config("development", None), &None, &UploadParams::default(), parts, &stamp(), "0123abcd");
    let e = r.err().expect("refused");
    assert!(matches!(e, UploadError::NoFile));
    assert_eq!(e.status_code(), 400);
    assert_eq!(e.message(), "No file uploaded");
    let reply = upload_reply(Err(e));
    assert_eq!(reply.status, 400);
    assert!(matches!(reply.body, Reply::Error { ref error } if error == "No file uploaded"));
}

#[test]
fn explicit_key_is_kept_verbatim() {
    let params = UploadParams { bucket: Some("b".to_string()), region: Some("us-east-1".to_string()), key: Some("my/Key 1.txt".to_string()) };
    let parts = vec![part("file", Some("r.json"), Some("text/plain"), b"abc")];
    let plan = plan_upload(&config("development", None), &None, &params, parts, &stamp(), "0123abcd-0000").unwrap();
    assert_eq!(plan.key, "my/Key 1.txt");
    assert_eq!(plan.bucket, "b");
    assert_eq!(plan.region, "us-east-1");
    assert_eq!(plan.url, "https://b.s3.us-east-1.amazonaws.com/my/Key 1.txt");
    assert_eq!(plan.content_type, "text/plain");
    assert_eq!(plan.body, b"abc".to_vec());
}

#[test]
fn generated_key_from_stamp_and_id() {
    let parts = vec![part("file", Some("report.json"), None, b"abc")];
    let plan = plan_upload(&config("development", None), &None, &UploadParams::default(), parts, &stamp(), "deadbeef-1234-4abc-8def-0123456789ab").unwrap();
    assert_eq!(plan.key, "reports/2024-03-05T07-08-09-deadbeef-report.json");
    assert_eq!(generated_key(&stamp(), "abc", "f"), "reports/2024-03-05T07-08-09-abc-f");
}

#[test]
fn file_without_name_gets_fallback_name() {
    let parts = vec![part("file", None, None, b"abc")];
    let plan = plan_upload(&config("development", None), &None, &UploadParams::default(), parts, &stamp(), "deadbeef-1234").unwrap();
    assert_eq!(plan.key, "reports/2024-03-05T07-08-09-deadbeef-report-2024-03-05T07-08-09");
    assert_eq!(fallback_name(&stamp()), "report-2024-03-05T07-08-09");
}

#[test]
fn empty_content_type_is_stored_as_octet_stream() {
    let parts = vec![part("file", Some("a.bin"), Some(""), b"abc")];
    let plan = plan_upload(&config("development", None), &None, &UploadParams::default(), parts, &stamp(), "deadbeef").unwrap();
    assert_eq!(plan.content_type, "application/octet-stream");
    assert_eq!(effective_content_type(&None), "application/octet-stream");
    assert_eq!(effective_content_type(&Some("".to_string())), "application/octet-stream");
    assert_eq!(effective_content_type(&Some("image/png".to_string())), "image/png");
}

#[test]
fn timestamp_text_is_padded() {
    assert_eq!(stamp().format(), "2024-03-05T07-08-09");
    let t = Timestamp { year: 7, month: 12, day: 31, hour: 23, minute: 59, second: 59 };
    assert_eq!(t.format(), "0007-12-31T23-59-59");
}

#[test]
fn generated_keys_have_the_documented_shape_and_are_unique() {
    let mut seen = HashSet::new();
    for _ in 0..10_000 {
        let k = generate_key(&stamp(), "r.json");
        check_generated_key(&k, "r.json");
        assert!(seen.insert(k));
    }
}

#[test]
fn last_file_part_wins() {
    let parts = vec![
        part("file", Some("first"), None, b"1"),
        part("other", Some("x"), None, b"2"),
        part("file", Some("second"), None, b"3"),
        part("note", None, None, b"4"),
    ];
    assert_eq!(file_part_index(&parts), Some(2));
    let plan = plan_upload(&config("development", None), &None, &UploadParams::default(), parts, &stamp(), "deadbeef").unwrap();
    assert_eq!(plan.body, b"3".to_vec());
    assert_eq!(file_part_index(&vec![]), None);
}

#[test]
fn settings_resolve_explicit_then_configured_then_fallback() {
    let e = Some("explicit".to_string());
    let c = Some("configured".to_string());
    assert_eq!(resolve_setting(&e, &c, "fallback"), "explicit");
    assert_eq!(resolve_setting(&None, &c, "fallback"), "configured");
    assert_eq!(resolve_setting(&None, &None, "fallback"), "fallback");
    let mut cfg = config("development", None);
    cfg.default_bucket = Some("cfg-bucket".to_string());
    cfg.default_region = Some("eu-west-1".to_string());
    let plan = plan_upload(&cfg, &None, &UploadParams::default(), vec![part("file", Some("a"), None, b"")], &stamp(), "deadbeef").unwrap();
    assert_eq!(plan.bucket, "cfg-bucket");
    assert_eq!(plan.region, "eu-west-1");
}

#[test]
fn public_urls() {
    assert_eq!(public_url("bkt", "reports/a.json", "eu-central-1", &None), "https://bkt.s3.eu-central-1.amazonaws.com/reports/a.json");
    assert_eq!(public_url("bkt", "k", "r", &Some("cdn.example.com".to_string())), "https://cdn.example.com/k");
}

#[test]
fn domain_override_is_used_in_plan() {
    let mut cfg = config("development", None);
    cfg.domain = Some("files.example.org".to_string());
    let params = UploadParams { bucket: None, region: None, key: Some("k.txt".to_string()) };
    let plan = plan_upload(&cfg, &None, &params, vec![part("file", Some("a"), None, b"")], &stamp(), "x").unwrap();
    assert_eq!(plan.url, "https://files.example.org/k.txt");
}

#[test]
fn store_outcome_becomes_reply() {
    let params = UploadParams { bucket: None, region: None, key: Some("k".to_string()) };
    let plan = plan_upload(&config("development", None), &None, &params, vec![part("file", Some("a"), None, b"z")], &stamp(), "x").unwrap();
    let ok = complete_upload(plan.clone(), Ok(())).unwrap();
    assert_eq!(ok.key, "k");
    assert_eq!(ok.bucket, "repo-analyzer");
    assert_eq!(ok.region, "eu-central-1");
    assert_eq!(ok.url, "https://repo-analyzer.s3.eu-central-1.amazonaws.com/k");
    let reply = upload_reply(Ok(ok));
    assert_eq!(reply.status, 200);
    let err = complete_upload(plan, Err(StoreError { message: "boom".to_string(), timed_out: false })).err().unwrap();
    assert_eq!(err.status_code(), 500);
    let reply = upload_reply(Err(err));
    assert_eq!(reply.status, 500);
    assert!(matches!(reply.body, Reply::Error { ref error } if error == "Failed to upload file: boom"));
}

#[test]
fn store_timeout_is_gateway_timeout() {
    let params = UploadParams { bucket: None, region: None, key: Some("k".to_string()) };
    let plan = plan_upload(&config("development", None), &None, &params, vec![part("file", Some("a"), None, b"z")], &stamp(), "x").unwrap();
    let err = complete_upload(plan, Err(StoreError { message: "slow".to_string(), timed_out: true })).err().unwrap();
    assert!(matches!(err, UploadError::TimedOut));
    let reply = upload_reply(Err(err));
    assert_eq!(reply.status, 504);
    assert!(matches!(reply.body, Reply::Error { ref error } if error == "Upload timed out"));
}
