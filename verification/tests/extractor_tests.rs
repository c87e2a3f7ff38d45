//! Integration tests for payload extraction and validation
//!
//! These tests verify the security-critical payload handling logic including
//! size limits, validation, and edge cases that could indicate attacks. The
//! body is parsed here with serde_json, as the server does, and the outcome
//! of the parse is handed to the extractor with the body's length.

use mangayomi_server::config::sync;
use mangayomi_server::http_constants::{HTTP_BAD_REQUEST, HTTP_PAYLOAD_TOO_LARGE};
use mangayomi_server::sync::extractor::{extract_sync_payload, get_max_payload_size, PayloadRejection, ValidatePayload};
use mangayomi_server::sync::history::model::{History, HistoryList};

fn field<'a>(obj: &'a serde_json::Map<String, serde_json::Value>, name: &str) -> Result<&'a serde_json::Value, String> {
    obj.get(name).ok_or_else(|| format!("missing field `{}`", name))
}

fn int_field(obj: &serde_json::Map<String, serde_json::Value>, name: &str) -> Result<i64, String> {
    field(obj, name)?.as_i64().ok_or_else(|| format!("invalid type for `{}`: expected i64", name))
}

/// Reads a history payload from JSON text, as the server's serde form does,
/// with an error text on failure.
fn parse(body: &[u8]) -> Result<HistoryList, String> {
    let value: serde_json::Value = serde_json::from_slice(body).map_err(|e| e.to_string())?;
    let obj = value.as_object().ok_or_else(|| "invalid type: expected struct HistoryList".to_string())?;
    let mut histories = Vec::new();
    for h in field(obj, "histories")?.as_array().ok_or_else(|| "invalid type: expected a sequence".to_string())? {
        let h = h.as_object().ok_or_else(|| "invalid type: expected struct History".to_string())?;
        histories.push(History {
            oid: None,
            id: int_field(h, "id")?,
            date: field(h, "date")?.as_str().ok_or_else(|| "invalid type: expected a string".to_string())?.to_string(),
            manga_id: int_field(h, "mangaId")?,
            chapter_id: int_field(h, "chapterId")?,
            item_type: int_field(h, "itemType")?,
            user: None,
            updated_at: int_field(h, "updatedAt")?,
        });
    }
    let mut deleted_histories = Vec::new();
    for d in field(obj, "deleted_histories")?.as_array().ok_or_else(|| "invalid type: expected a sequence".to_string())? {
        deleted_histories.push(d.as_i64().ok_or_else(|| "invalid type: expected i64".to_string())?);
    }
    let reset_all = match obj.get("resetAll") {
        None | Some(serde_json::Value::Null) => None,
        Some(v) => Some(v.as_bool().ok_or_else(|| "invalid type: expected a boolean".to_string())?),
    };
    Ok(HistoryList { histories, deleted_histories, reset_all })
}

fn entry(id: i64, date: &str) -> String {
    format!(
        r#"{{"id": {}, "date": "{}", "mangaId": 1, "chapterId": 2, "itemType": 0, "updatedAt": 1775156240310}}"#,
        id, date
    )
}

fn payload(entries: &[String], deleted: &str) -> String {
    format!(r#"{{"histories": [{}], "deleted_histories": [{}]}}"#, entries.join(","), deleted)
}

fn extract(body: &[u8]) -> Result<HistoryList, PayloadRejection> {
    let max_size = get_max_payload_size(None);
    let parsed = if body.len() > max_size { Err(String::new()) } else { parse(body) };
    extract_sync_payload(body.len(), max_size, parsed, "history")
}


/// Test successful extraction with valid payload
#[test]
fn test_extract_sync_payload_success() {
    let json = payload(&[entry(123, "2026-04-02"), entry(124, "2026-04-03")], "7");
    let result = extract(json.as_bytes());

    assert!(result.is_ok(), "Valid payload should succeed");
    let list = result.ok().unwrap();
    assert_eq!(list.histories[0].id, 123);
    assert_eq!(list.histories[1].date, "2026-04-03");
    assert_eq!(list.deleted_histories, vec![7]);
    assert_eq!(list.item_count(), 2);
}

/// Test extraction with type mismatch in JSON
#[test]
fn test_extract_sync_payload_type_mismatch() {
    let json = r#"{"histories": [{"id": "not_a_number"}], "deleted_histories": []}"#;
    let result = extract(json.as_bytes());

    assert!(result.is_err(), "Type mismatch should be rejected");
    let resp = result.err().unwrap();
    assert_eq!(resp.status, 400, "Should return Bad Request for type mismatch");
    assert!(resp.message.starts_with("Invalid payload: "));
}

/// Test extraction with minimal valid payload
#[test]
fn test_extract_sync_payload_minimum_valid() {
    let json = payload(&[], "");
    let result = extract(json.as_bytes());

    assert!(result.is_ok(), "Minimum valid payload should succeed");
    assert_eq!(result.ok().unwrap().item_count(), 0);
}

/// Test extraction with ID at minimum boundary: 0 is refused.
#[test]
fn test_extract_sync_payload_rejects_zero_id() {
    let json = payload(&[entry(0, "2026-04-02")], "");
    let result = extract(json.as_bytes());

    assert!(result.is_err(), "Zero ID should be rejected");
    let resp = result.err().unwrap();
    assert_eq!(resp.status, 400);
    assert!(resp.message.starts_with("Invalid history ID: 0"));
}

/// Test extraction with negative ID
#[test]
fn test_extract_sync_payload_rejects_negative_id() {
    let json = payload(&[entry(-1, "2026-04-02")], "");
    let result = extract(json.as_bytes());

    assert!(result.is_err(), "Negative ID should be rejected");
    assert_eq!(result.err().unwrap().status, HTTP_BAD_REQUEST);
}

/// A negative ID among the IDs to delete is refused too.
#[test]
fn test_extract_sync_payload_rejects_negative_deleted_id() {
    let json = payload(&[entry(1, "2026-04-02")], "5, -2");
    let result = extract(json.as_bytes());

    assert!(result.is_err(), "Negative deleted ID should be rejected");
    assert!(result.err().unwrap().message.starts_with("Invalid deleted history ID: -2"));
}

/// Test extraction with oversized payload (DoS protection)
#[test]
fn test_extract_sync_payload_rejects_oversized() {
    let max_size = get_max_payload_size(None);
    let oversized = vec![b'x'; max_size + 1];
    let result = extract(&oversized);

    assert!(result.is_err(), "Oversized payload should be rejected");
    let resp = result.err().unwrap();
    assert_eq!(resp.status, HTTP_PAYLOAD_TOO_LARGE, "Should return 413 Payload Too Large");
    assert_eq!(resp.message, "Payload too large");
}

/// Test extraction with payload close to the size limit
#[test]
fn test_extract_sync_payload_accepts_exact_size_limit() {
    let max_size = get_max_payload_size(None);
    let one = entry(1, "d");
    let available = max_size.saturating_sub(100);
    let max_items_for_test = std::cmp::min(available / (one.len() + 1), sync::MAX_SYNC_ITEMS - 1);

    assert!(
        max_items_for_test > 10,
        "Test setup failed: payload size config ({}MB) too small for meaningful test",
        sync::DEFAULT_PAYLOAD_SIZE_MB
    );

    let entries: Vec<String> = (1..=max_items_for_test as i64).map(|i| entry(i, "d")).collect();
    let json = payload(&entries, "");
    assert!(
        json.len() <= max_size,
        "Test setup failed: constructed payload ({} bytes) exceeds max size ({} bytes)",
        json.len(),
        max_size
    );

    let result = extract(json.as_bytes());
    if let Err(resp) = result {
        assert_ne!(resp.status, HTTP_PAYLOAD_TOO_LARGE, "Should not reject for size when under limit");
    }
}

/// Test extraction with empty body
#[test]
fn test_extract_sync_payload_rejects_empty_body() {
    let result = extract(b"{}");

    assert!(result.is_err(), "Empty object should be rejected");
}

/// Test extraction with completely empty bytes
#[test]
fn test_extract_sync_payload_rejects_zero_bytes() {
    let result = extract(b"");

    assert!(result.is_err(), "Empty bytes should fail parsing");
    let resp = result.err().unwrap();
    assert_eq!(resp.status, HTTP_BAD_REQUEST);
    assert!(resp.message.starts_with("Invalid payload: "));
}

/// Test extraction with malformed JSON
#[test]
fn test_extract_sync_payload_rejects_malformed_json() {
    let test_cases = vec![
        (r#"{"histories": [], "deleted_histories": ["#, "truncated"),
        (r#"{"histories": [], "deleted_histories": [],}"#, "trailing comma"),
        (r#"{"histories": }"#, "missing value"),
        (r#"{"histories": [] "deleted_histories": []}"#, "missing comma"),
        (r#"not json at all"#, "not json"),
        (r#"<html>not json</html>"#, "html payload"),
    ];

    for (json, description) in test_cases {
        let result = extract(json.as_bytes());
        assert!(result.is_err(), "{} should be rejected", description);
        assert_eq!(result.err().unwrap().status, HTTP_BAD_REQUEST);
    }
}

/// Test extraction with nested JSON injection attempt
#[test]
fn test_extract_sync_payload_handles_deeply_nested() {
    let depth = 1000;
    let mut json = String::new();
    for _ in 0..depth {
        json.push_str(r#"{"nested":"#);
    }
    json.push_str(r#""value""#);
    for _ in 0..depth {
        json.push_str(r#"}"#);
    }

    // We mainly care that it doesn't panic
    let result = extract(json.as_bytes());
    assert!(result.is_err());
}

/// Test extraction with valid but large item count
#[test]
fn test_extract_sync_payload_with_many_items() {
    let entries: Vec<String> = (1..=100).map(|i| entry(i, "2026-04-02")).collect();
    let json = payload(&entries, "");
    let result = extract(json.as_bytes());

    assert!(result.is_ok(), "Payload with many items should succeed");
    assert_eq!(result.ok().unwrap().item_count(), 100);
}

/// Test extraction with special characters in strings
#[test]
fn test_extract_sync_payload_with_special_characters() {
    let json = payload(&[entry(1, "<script>alert('xss')</script>")], "");
    let result = extract(json.as_bytes());

    assert!(result.is_ok(), "Special characters in strings should be allowed");
    assert!(result.ok().unwrap().histories[0].date.contains("<script>"), "Content should be preserved");
}

/// Test extraction with unicode in strings
#[test]
fn test_extract_sync_payload_with_unicode() {
    let json = payload(&[entry(1, "测试测试テスト🎉")], "");
    let result = extract(json.as_bytes());

    assert!(result.is_ok(), "Unicode should be handled correctly");
    assert_eq!(result.ok().unwrap().histories[0].date, "测试测试テスト🎉");
}

/// A batch over the item limit is refused after validation, with 413.
#[test]
fn test_extract_sync_payload_rejects_too_many_items() {
    let one = History { id: 1, date: String::new(), updated_at: 1, ..Default::default() };
    let list = HistoryList { histories: vec![one; sync::MAX_SYNC_ITEMS + 1], ..Default::default() };
    let result = extract_sync_payload(10, 100, Ok(list), "history");
    let resp = result.err().unwrap();
    assert_eq!(resp.status, HTTP_PAYLOAD_TOO_LARGE);
    assert_eq!(resp.message, "Batch too large: 100001 items (max: 100000)");
}
