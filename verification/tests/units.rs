//! Unit tests for the JSON model, field extraction, the region fallback
//! chain and the formatted strings.

use bucket_notify::event::InputError;
use bucket_notify::event::extract_fields;
use bucket_notify::handler::Response;
use bucket_notify::handler::format_message;
use bucket_notify::handler::format_notification;
use bucket_notify::handler::resolve_region;
use bucket_notify::json::Json;

fn obj(fields: Vec<(&str, Json)>) -> Json {
    Json::Obj(fields.into_iter().map(|(k, v)| (k.to_string(), v)).collect())
}

#[test]
fn lookup_finds_first_match() {
    let j = obj(vec![
        ("a", Json::Int(1)),
        ("b", Json::Int(2)),
        ("a", Json::Int(3)),
    ]);
    assert_eq!(j.get("a"), Some(&Json::Int(1)));
    assert_eq!(j.get("b"), Some(&Json::Int(2)));
    assert_eq!(j.get("c"), None);
}

#[test]
fn lookup_on_non_object_is_none() {
    assert_eq!(Json::Null.get("a"), None);
    assert_eq!(Json::Int(7).get("a"), None);
    assert_eq!(Json::Arr(vec![Json::Int(1)]).get("a"), None);
}

#[test]
fn index_checks_bounds_and_kind() {
    let j = Json::Arr(vec![Json::Int(1), Json::Int(2)]);
    assert_eq!(j.at(0), Some(&Json::Int(1)));
    assert_eq!(j.at(1), Some(&Json::Int(2)));
    assert_eq!(j.at(2), None);
    assert_eq!(Json::Null.at(0), None);
    assert_eq!(obj(vec![]).at(0), None);
}

#[test]
fn as_str_only_on_strings() {
    assert_eq!(Json::Str("x".to_string()).as_str(), Some(&"x".to_string()));
    assert_eq!(Json::Int(1).as_str(), None);
    assert_eq!(Json::Null.as_str(), None);
}

fn full_event() -> Json {
    obj(vec![(
        "Records",
        Json::Arr(vec![obj(vec![
            ("awsRegion", Json::Str("us-east-2".to_string())),
            (
                "s3",
                obj(vec![
                    (
                        "bucket",
                        obj(vec![("name", Json::Str("my-bucket".to_string()))]),
                    ),
                    (
                        "object",
                        obj(vec![("key", Json::Str("report.csv".to_string()))]),
                    ),
                ]),
            ),
        ])]),
    )])
}

#[test]
fn extracts_all_three_fields() {
    let fields = extract_fields(&full_event()).expect("expected fields");
    assert_eq!(fields.region, "us-east-2");
    assert_eq!(fields.bucket, "my-bucket");
    assert_eq!(fields.key, "report.csv");
}

#[test]
fn non_string_region_is_rejected() {
    let event = obj(vec![(
        "Records",
        Json::Arr(vec![obj(vec![("awsRegion", Json::Int(42))])]),
    )]);
    assert_eq!(extract_fields(&event), Err(InputError::MissingRegion));
}

#[test]
fn empty_records_is_rejected() {
    let event = obj(vec![("Records", Json::Arr(vec![]))]);
    assert_eq!(extract_fields(&event), Err(InputError::MissingRegion));
}

#[test]
fn region_is_reported_before_bucket() {
    // both region and bucket are missing; the region is reported
    let event = obj(vec![("Records", Json::Arr(vec![obj(vec![])]))]);
    assert_eq!(extract_fields(&event), Err(InputError::MissingRegion));
}

#[test]
fn missing_bucket_is_rejected() {
    let event = obj(vec![(
        "Records",
        Json::Arr(vec![obj(vec![
            ("awsRegion", Json::Str("us-east-2".to_string())),
            (
                "s3",
                obj(vec![(
                    "object",
                    obj(vec![("key", Json::Str("report.csv".to_string()))]),
                )]),
            ),
        ])]),
    )]);
    assert_eq!(extract_fields(&event), Err(InputError::MissingBucket));
}

#[test]
fn region_fallback_prefers_event() {
    let r = resolve_region(
        &"us-east-2".to_string(),
        &Some("eu-west-1".to_string()),
        &"us-west-2".to_string(),
    );
    assert_eq!(r, "us-east-2");
}

#[test]
fn region_fallback_uses_provider_when_event_empty() {
    let r = resolve_region(
        &"".to_string(),
        &Some("eu-west-1".to_string()),
        &"us-west-2".to_string(),
    );
    assert_eq!(r, "eu-west-1");
}

#[test]
fn region_fallback_uses_default_last() {
    let r = resolve_region(&"".to_string(), &None, &"us-west-2".to_string());
    assert_eq!(r, "us-west-2");
    let r = resolve_region(
        &"".to_string(),
        &Some("".to_string()),
        &"us-west-2".to_string(),
    );
    assert_eq!(r, "us-west-2");
}

#[test]
fn message_has_the_fixed_format() {
    let m = format_message(
        &"report.csv".to_string(),
        &"my-bucket".to_string(),
        &"us-east-2".to_string(),
    );
    assert_eq!(
        m,
        "File: report.csv is copied to your s3 bucket: my-bucket in region: us-east-2"
    );
}

#[test]
fn notification_has_the_fixed_format() {
    let n = format_notification(&"test@example.com".to_string());
    assert_eq!(n, "Email notification sent to: test@example.com");
}

#[test]
fn response_json_has_the_four_fields() {
    let resp = Response {
        region: "us-east-2".to_string(),
        bucket: "my-bucket".to_string(),
        file: "report.csv".to_string(),
        notification: "Email notification sent to: test@example.com".to_string(),
    };
    let j = resp.to_json();
    assert_eq!(
        j.get("region").and_then(|v| v.as_str()),
        Some(&"us-east-2".to_string())
    );
    assert_eq!(
        j.get("bucket").and_then(|v| v.as_str()),
        Some(&"my-bucket".to_string())
    );
    assert_eq!(
        j.get("file").and_then(|v| v.as_str()),
        Some(&"report.csv".to_string())
    );
    assert_eq!(
        j.get("Notification").and_then(|v| v.as_str()),
        Some(&"Email notification sent to: test@example.com".to_string())
    );
    match j {
        Json::Obj(fields) => assert_eq!(fields.len(), 4),
        other => panic!("expected an object, got {:?}", other),
    }
}
