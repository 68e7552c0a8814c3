//! Response handling: status checking, parsing, and path normalization,
//! against a simulated daemon's status codes and body text.
use rclone_stats::json::JsonValue;
use rclone_stats::paths::normalize_windows_path;
use rclone_stats::stats::{process_response, process_transfers_response};
use rclone_stats::text::u64_to_dec;

const CTX: &str = "Failed to parse core stats";
const TCTX: &str = "Failed to parse completed transfers";

fn obj(members: Vec<(&str, JsonValue)>) -> JsonValue {
    JsonValue::Object(members.into_iter().map(|(k, v)| (k.to_string(), v)).collect())
}

fn text(s: &str) -> JsonValue {
    JsonValue::Text(s.to_string())
}

fn num(s: &str) -> JsonValue {
    JsonValue::Num(s.to_string())
}

#[test]
fn success_returns_exact_document() {
    let r = process_response(200, "{\"eta\":null,\"speed\":12}", CTX);
    assert_eq!(
        r,
        Ok(obj(vec![("eta", JsonValue::Null), ("speed", num("12"))]))
    );
}

#[test]
fn success_returns_exact_document_nested() {
    let r = process_response(204, "{\"a\":[1,true,\"x\"],\"b\":{\"c\":2.5}}", CTX);
    assert_eq!(
        r,
        Ok(obj(vec![
            (
                "a",
                JsonValue::Array(vec![num("1"), JsonValue::Bool(true), text("x")])
            ),
            ("b", obj(vec![("c", num("2.5"))])),
        ]))
    );
}

#[test]
fn transfers_success_returns_exact_document_off_platform() {
    let r = process_transfers_response(200, "{\"transferred\":[]}", false, TCTX);
    assert_eq!(r, Ok(obj(vec![("transferred", JsonValue::Array(vec![]))])));
}

#[test]
fn failure_status_embeds_code_and_raw_body() {
    let r = process_response(404, "not found body", CTX);
    assert_eq!(r, Err("HTTP 404: not found body".to_string()));
    let r = process_response(500, "{\"error\":\"boom\"}", CTX);
    assert_eq!(r, Err("HTTP 500: {\"error\":\"boom\"}".to_string()));
    let r = process_transfers_response(503, "busy", true, TCTX);
    assert_eq!(r, Err("HTTP 503: busy".to_string()));
    let r = process_response(199, "", CTX);
    assert_eq!(r, Err("HTTP 199: ".to_string()));
    let r = process_response(300, "x", CTX);
    assert_eq!(r, Err("HTTP 300: x".to_string()));
}

#[test]
fn non_json_success_body_is_an_error() {
    let r = process_response(200, "not json at all", CTX);
    let m = r.expect_err("a non-JSON body must not parse");
    assert!(m.starts_with("Failed to parse core stats: "));
    let r = process_transfers_response(200, "{truncated", true, TCTX);
    let m = r.expect_err("a non-JSON body must not parse");
    assert!(m.starts_with("Failed to parse completed transfers: "));
    let r = process_response(200, "", CTX);
    assert!(r.is_err());
}

#[test]
fn transfers_paths_are_normalized_on_drive_letter_platform() {
    let body = "{\"transferred\":[{\"dstFs\":\"\\\\\\\\?\\\\D:/b\",\"srcFs\":\"//?/C:/a\"}]}";
    let r = process_transfers_response(200, body, true, TCTX);
    assert_eq!(
        r,
        Ok(obj(vec![(
            "transferred",
            JsonValue::Array(vec![obj(vec![("dstFs", text("D:/b")), ("srcFs", text("C:/a"))])])
        )]))
    );
    let r = process_transfers_response(200, body, false, TCTX);
    assert_eq!(
        r,
        Ok(obj(vec![(
            "transferred",
            JsonValue::Array(vec![obj(vec![
                ("dstFs", text("\\\\?\\D:/b")),
                ("srcFs", text("//?/C:/a"))
            ])])
        )]))
    );
}

#[test]
fn transfers_normalization_leaves_other_values_untouched() {
    let body = "{\"other\":\"//?/C:/x\",\"transferred\":[{\"bytes\":7,\"srcFs\":\"plain\"},42,{\"dstFs\":null}]}";
    let r = process_transfers_response(200, body, true, TCTX);
    assert_eq!(
        r,
        Ok(obj(vec![
            ("other", text("//?/C:/x")),
            (
                "transferred",
                JsonValue::Array(vec![
                    obj(vec![("bytes", num("7")), ("srcFs", text("plain"))]),
                    num("42"),
                    obj(vec![("dstFs", JsonValue::Null)]),
                ])
            ),
        ]))
    );
}

#[test]
fn transfers_normalization_without_transferred_array() {
    let r = process_transfers_response(200, "{\"transferred\":\"//?/C:/a\"}", true, TCTX);
    assert_eq!(r, Ok(obj(vec![("transferred", text("//?/C:/a"))])));
    let r = process_transfers_response(200, "[1,2]", true, TCTX);
    assert_eq!(r, Ok(JsonValue::Array(vec![num("1"), num("2")])));
}

#[test]
fn normalize_windows_path_strips_either_marker() {
    assert_eq!(normalize_windows_path("//?/C:/path"), "C:/path");
    assert_eq!(normalize_windows_path("\\\\?\\C:\\path"), "C:\\path");
}

#[test]
fn normalize_windows_path_leaves_other_paths_alone() {
    assert_eq!(normalize_windows_path("C:/path"), "C:/path");
    assert_eq!(normalize_windows_path("//?"), "//?");
    assert_eq!(normalize_windows_path(""), "");
    assert_eq!(normalize_windows_path("/\\?/x"), "/\\?/x");
}

#[test]
fn decimal_rendering_is_exact() {
    assert_eq!(u64_to_dec(0), "0");
    assert_eq!(u64_to_dec(7), "7");
    assert_eq!(u64_to_dec(404), "404");
    assert_eq!(u64_to_dec(u64::MAX), "18446744073709551615");
}
