use usage_meter::collector::{
    default_log_paths, generate_log_uuid, is_log_extension, log_line_text, log_uuid_name,
    parse_log_document, parse_log_value_at, plan_read, read_log_fields, CollectorConfig, CursorStep,
    LOG_UUID_NAMESPACE,
};
use usage_meter::json::{JsonNumber, JsonValue};
use usage_meter::models::{ModelType, Timestamp};

/// The document model of a JSON value, as the daemon builds it.
fn to_json(v: &serde_json::Value) -> JsonValue {
    match v {
        serde_json::Value::Null => JsonValue::Null,
        serde_json::Value::Bool(b) => JsonValue::Bool(*b),
        serde_json::Value::Number(n) => JsonValue::Number(if let Some(u) = n.as_u64() {
            JsonNumber::PosInt(u)
        } else if let Some(i) = n.as_i64() {
            JsonNumber::NegInt(i)
        } else {
            JsonNumber::Float
        }),
        serde_json::Value::String(s) => JsonValue::String(s.clone()),
        serde_json::Value::Array(a) => JsonValue::Array(a.iter().map(to_json).collect()),
        serde_json::Value::Object(m) => {
            JsonValue::Object(m.iter().map(|(k, v)| (k.clone(), to_json(v))).collect())
        }
    }
}

/// The instant of the system clock.
fn clock() -> Timestamp {
    let now = chrono::Utc::now();
    Timestamp { secs: now.timestamp(), nanos: now.timestamp_subsec_nanos() }
}

/// A log line read as the daemon reads it, now.
fn parse_log_line(
    line: &str,
) -> Result<Option<usage_meter::collector::LogUsage>, usage_meter::errors::CollectorError> {
    match log_line_text(line) {
        None => Ok(None),
        Some(text) => {
            let doc = serde_json::from_str::<serde_json::Value>(text)
                .map(|v| to_json(&v))
                .map_err(|e| e.to_string());
            parse_log_document(doc, clock())
        }
    }
}

fn parse_line(line: &str) -> Option<usage_meter::collector::LogUsage> {
    parse_log_line(line).unwrap()
}

fn ts(text: &str) -> Timestamp {
    let dt = chrono::DateTime::parse_from_rfc3339(text).unwrap().with_timezone(&chrono::Utc);
    Timestamp { secs: dt.timestamp(), nanos: dt.timestamp_subsec_nanos() }
}

#[test]
fn test_parse_log_line_valid() {
    let line = r#"{"timestamp":"2026-03-05T10:30:00Z","model":"vendor-sonnet-4-6","usage":{"input_tokens":1234,"output_tokens":567}}"#;
    let record = parse_line(line).unwrap();
    assert_eq!(record.model, ModelType::Sonnet);
    assert_eq!(record.input_tokens, 1234);
    assert_eq!(record.output_tokens, 567);
}

#[test]
fn test_parse_log_line_with_cache() {
    let line = r#"{"timestamp":"2026-03-05T10:30:00Z","model":"vendor-opus-4-6","usage":{"input_tokens":1000,"output_tokens":500,"cache_read_tokens":200,"cache_write_tokens":100}}"#;
    let record = parse_line(line).unwrap();
    assert_eq!(record.model, ModelType::Opus);
    assert_eq!(record.cache_read_tokens, 200);
    assert_eq!(record.cache_write_tokens, 100);
}

#[test]
fn test_parse_conversation_format() {
    let line = r#"{"type":"assistant","timestamp":"2026-03-05T10:30:00Z","sessionId":"abc-123","message":{"model":"vendor-opus-4-6","type":"message","role":"assistant","content":[],"usage":{"input_tokens":50,"output_tokens":200,"cache_read_input_tokens":10000,"cache_creation_input_tokens":5000}}}"#;
    let record = parse_line(line).unwrap();
    assert_eq!(record.model, ModelType::Opus);
    assert_eq!(record.input_tokens, 50);
    assert_eq!(record.output_tokens, 200);
    assert_eq!(record.cache_read_tokens, 10000);
    assert_eq!(record.cache_write_tokens, 5000);
    assert_eq!(record.session_id.as_deref(), Some("abc-123"));
}

#[test]
fn test_parse_conversation_non_assistant_skipped() {
    let line = r#"{"type":"user","timestamp":"2026-03-05T10:30:00Z","sessionId":"abc-123","message":{"role":"user","content":"hello"}}"#;
    let result = parse_line(line);
    assert!(result.is_none());
}

#[test]
fn test_parse_log_line_zero_tokens_rejected() {
    let line = r#"{"timestamp":"2026-03-05T10:30:00Z","model":"vendor-sonnet-4-6","usage":{"input_tokens":0,"output_tokens":0}}"#;
    let result = parse_line(line);
    assert!(result.is_none());
}

#[test]
fn test_parse_log_line_missing_usage() {
    let line = r#"{"timestamp":"2026-03-05T10:30:00Z","model":"vendor-sonnet-4-6"}"#;
    let result = parse_line(line);
    assert!(result.is_none());
}

#[test]
fn test_parse_log_line_unknown_fields_ignored() {
    let line = r#"{"timestamp":"2026-03-05T10:30:00Z","model":"vendor-sonnet-4-6","usage":{"input_tokens":100,"output_tokens":50},"extra_field":"ignored"}"#;
    let record = parse_line(line).unwrap();
    assert_eq!(record.input_tokens, 100);
}

#[test]
fn test_generate_log_uuid_deterministic() {
    let t = ts("2026-03-05T10:30:00Z");
    let uuid1 = generate_log_uuid(t, &ModelType::Sonnet, 1234, 567);
    let uuid2 = generate_log_uuid(t, &ModelType::Sonnet, 1234, 567);
    assert_eq!(uuid1, uuid2, "same inputs must produce same UUID");
}

#[test]
fn test_generate_log_uuid_different_inputs() {
    let t = ts("2026-03-05T10:30:00Z");
    let uuid1 = generate_log_uuid(t, &ModelType::Sonnet, 1234, 567);
    let uuid2 = generate_log_uuid(t, &ModelType::Sonnet, 1234, 568);
    assert_ne!(uuid1, uuid2, "different inputs must produce different UUIDs");
}

#[test]
fn test_generate_log_uuid_different_models() {
    let t = ts("2026-03-05T10:30:00Z");
    let uuid1 = generate_log_uuid(t, &ModelType::Sonnet, 1234, 567);
    let uuid2 = generate_log_uuid(t, &ModelType::Opus, 1234, 567);
    assert_ne!(uuid1, uuid2);
}

#[test]
fn test_default_config() {
    let config = CollectorConfig::for_home(Some("/home/u"), "assistant");
    assert_eq!(config.poll_interval_secs, 60);
    assert_eq!(config.log_paths.len(), 3);
    let config = CollectorConfig::for_home(None, "assistant");
    assert_eq!(config.poll_interval_secs, 60);
    assert!(config.log_paths.is_empty());
}

#[test]
fn uuid_is_the_v5_of_the_identifying_name() {
    let t = ts("2026-03-05T10:30:00.250Z");
    let name = log_uuid_name(&t, &ModelType::Haiku, 10, 20);
    assert_eq!(name, "1772706600250:Haiku:10:20");
    let expected = uuid::Uuid::new_v5(
        &uuid::Uuid::from_bytes([
            0x6b, 0xa7, 0xb8, 0x10, 0x9d, 0xad, 0x11, 0xd1, 0x80, 0xb4, 0x00, 0xc0, 0x4f, 0xd4,
            0x30, 0xc8,
        ]),
        name.as_bytes(),
    );
    assert_eq!(generate_log_uuid(t, &ModelType::Haiku, 10, 20), expected.as_u128());
    assert_eq!(uuid::Uuid::from_u128(LOG_UUID_NAMESPACE), uuid::Uuid::NAMESPACE_DNS);
    let early = Timestamp { secs: -2, nanos: 0 };
    assert_eq!(log_uuid_name(&early, &ModelType::Opus, 0, 1), "-2000:Opus:0:1");
}

#[test]
fn reading_an_entry_twice_gives_one_identity() {
    let line = r#"{"timestamp":"2026-03-05T10:30:00Z","model":"vendor-sonnet-4-6","usage":{"input_tokens":1,"output_tokens":2}}"#;
    let a = parse_line(line).unwrap();
    let b = parse_line(line).unwrap();
    assert_eq!(a.uuid, b.uuid);
    assert_eq!(a.timestamp, ts("2026-03-05T10:30:00Z"));
}

#[test]
fn future_entries_are_rejected() {
    let v: serde_json::Value = serde_json::from_str(
        r#"{"timestamp":"2026-03-05T10:30:00Z","model":"opus","usage":{"input_tokens":5}}"#,
    )
    .unwrap();
    let doc = to_json(&v);
    let entry = ts("2026-03-05T10:30:00Z");
    // Any instant after the reading instant is refused, a minute or a
    // nanosecond ahead; the reading instant itself is accepted.
    let now = Timestamp { secs: entry.secs - 60, nanos: 0 };
    assert!(parse_log_value_at(&doc, now).is_none());
    let now = Timestamp { secs: entry.secs - 1, nanos: 999_999_999 };
    assert!(parse_log_value_at(&doc, now).is_none());
    let now = Timestamp { secs: entry.secs, nanos: 0 };
    assert!(parse_log_value_at(&doc, now).is_some());
    let now = Timestamp { secs: entry.secs + 3600, nanos: 0 };
    assert!(parse_log_value_at(&doc, now).is_some());
}

#[test]
fn fallback_keys_and_odd_values() {
    let v: serde_json::Value = serde_json::from_str(
        r#"{"timestamp":"2026-03-05T10:30:00Z","session_id":"s-1","project":"p","model":"haiku",
            "usage":{"input_tokens":-3,"output_tokens":2.5,"cache_read_input_tokens":"x","cache_read_tokens":9,"cache_write_tokens":4}}"#,
    )
    .unwrap();
    let f = read_log_fields(&to_json(&v));
    let c = f.usage.unwrap();
    assert_eq!(c.input_tokens, 0);
    assert_eq!(c.output_tokens, 0);
    // A present but non-numeric primary key hides the fallback.
    assert_eq!(c.cache_read_tokens, 0);
    assert_eq!(c.cache_write_tokens, 4);
    assert_eq!(f.session_id.as_deref(), Some("s-1"));
    assert_eq!(f.project.as_deref(), Some("p"));
    assert_eq!(f.model.as_deref(), Some("haiku"));
}

#[test]
fn unknown_models_and_bad_timestamps_are_skipped() {
    let line = r#"{"timestamp":"2026-03-05T10:30:00Z","model":"gpt-4","usage":{"input_tokens":1}}"#;
    assert!(parse_line(line).is_none());
    let line = r#"{"timestamp":"yesterday","model":"opus","usage":{"input_tokens":1}}"#;
    assert!(parse_line(line).is_none());
    let line = r#"{"model":"opus","usage":{"input_tokens":1}}"#;
    assert!(parse_line(line).is_none());
}

#[test]
fn log_files_and_cursors() {
    assert!(is_log_extension(Some("jsonl")));
    assert!(is_log_extension(Some("log")));
    assert!(!is_log_extension(Some("json")));
    assert!(!is_log_extension(None));
    assert_eq!(plan_read(100, None), CursorStep::ReadFrom(0));
    assert_eq!(plan_read(100, Some(40)), CursorStep::ReadFrom(40));
    assert_eq!(plan_read(100, Some(100)), CursorStep::Unchanged);
    assert_eq!(plan_read(10, Some(100)), CursorStep::Reset);
    assert_eq!(plan_read(0, None), CursorStep::Unchanged);
}

#[test]
fn default_paths_under_home() {
    let paths = default_log_paths(Some("/home/u"), "assistant");
    assert_eq!(
        paths,
        vec![
            "/home/u/.assistant/projects".to_string(),
            "/home/u/.assistant/logs".to_string(),
            "/home/u/.config/assistant/logs".to_string(),
        ]
    );
    assert_eq!(default_log_paths(Some("/"), "a")[0], "/.a/projects");
    assert!(default_log_paths(None, "a").is_empty());
    let cfg = CollectorConfig::for_home(Some("/h"), "a");
    assert_eq!(cfg.poll_interval_secs, 60);
    assert_eq!(cfg.log_paths.len(), 3);
}

#[test]
fn test_parse_log_line_empty() {
    let result = parse_log_line("").unwrap();
    assert!(result.is_none());
    assert!(parse_log_line("  \t ").unwrap().is_none());
}

#[test]
fn test_parse_log_line_invalid_json() {
    let result = parse_log_line("not json");
    assert!(result.is_err());
    assert!(matches!(
        parse_log_document(Err("expected value".to_string()), clock()),
        Err(usage_meter::errors::CollectorError::LogParse(m)) if m == "expected value"
    ));
}

#[test]
fn log_line_text_trims() {
    assert_eq!(log_line_text("  {\"a\":1}\n"), Some("{\"a\":1}"));
    assert_eq!(log_line_text("\n"), None);
}
