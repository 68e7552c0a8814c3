//! The filter payloads of the four operations, on concrete inputs.
use rclone_stats::json::JsonValue;
use rclone_stats::stats::{build_url, filtered_stats_payload, job_stats_payload, stats_endpoint,
    transferred_endpoint, transfers_payload};

fn obj(members: Vec<(&str, JsonValue)>) -> JsonValue {
    JsonValue::Object(members.into_iter().map(|(k, v)| (k.to_string(), v)).collect())
}

fn text(s: &str) -> JsonValue {
    JsonValue::Text(s.to_string())
}

fn num(s: &str) -> JsonValue {
    JsonValue::Num(s.to_string())
}

#[test]
fn filtered_group_takes_precedence_over_jobid() {
    let p = filtered_stats_payload(Some(5), Some("g1".to_string()));
    assert_eq!(p, obj(vec![("group", text("g1"))]));
}

#[test]
fn filtered_jobid_synthesizes_group_name() {
    let p = filtered_stats_payload(Some(7), None);
    assert_eq!(p, obj(vec![("group", text("job/7"))]));
}

#[test]
fn filtered_without_arguments_is_global() {
    let p = filtered_stats_payload(None, None);
    assert_eq!(p, obj(vec![]));
}

#[test]
fn job_stats_payload_always_carries_jobid() {
    let p = job_stats_payload(3, None);
    assert_eq!(p, obj(vec![("jobid", num("3"))]));
}

#[test]
fn job_stats_payload_merges_group_after_jobid() {
    let p = job_stats_payload(3, Some("g".to_string()));
    assert_eq!(p, obj(vec![("jobid", num("3")), ("group", text("g"))]));
}

#[test]
fn transfers_payload_with_group() {
    let p = transfers_payload(Some("job/9".to_string()));
    assert_eq!(p, obj(vec![("group", text("job/9"))]));
}

#[test]
fn transfers_payload_without_group_is_empty() {
    let p = transfers_payload(None);
    assert_eq!(p, obj(vec![]));
}

#[test]
fn urls_join_base_and_endpoint() {
    assert_eq!(
        build_url("http://127.0.0.1:5572", stats_endpoint()),
        "http://127.0.0.1:5572/core/stats"
    );
    assert_eq!(
        build_url("http://127.0.0.1:5572", transferred_endpoint()),
        "http://127.0.0.1:5572/core/transferred"
    );
}
