use usage_meter::models::{DataSource, ModelType, SessionStatus, Timestamp};

#[test]
fn test_from_str_full_model_ids() {
    assert_eq!("vendor-opus-4-6".parse::<ModelType>().unwrap(), ModelType::Opus);
    assert_eq!("vendor-sonnet-4-6".parse::<ModelType>().unwrap(), ModelType::Sonnet);
    assert_eq!("vendor-haiku-4-5-20251001".parse::<ModelType>().unwrap(), ModelType::Haiku);
}

#[test]
fn test_from_str_short_names() {
    assert_eq!("Opus".parse::<ModelType>().unwrap(), ModelType::Opus);
    assert_eq!("sonnet".parse::<ModelType>().unwrap(), ModelType::Sonnet);
    assert_eq!("HAIKU".parse::<ModelType>().unwrap(), ModelType::Haiku);
}

#[test]
fn test_from_str_unknown() {
    assert!("gpt-4".parse::<ModelType>().is_err());
    assert!("unknown".parse::<ModelType>().is_err());
}

#[test]
fn test_display() {
    assert_eq!(ModelType::Opus.to_string(), "Opus");
    assert_eq!(ModelType::Sonnet.to_string(), "Sonnet");
    assert_eq!(ModelType::Haiku.to_string(), "Haiku");
}

#[test]
fn test_session_status_display() {
    assert_eq!(SessionStatus::Streaming.to_string(), "Streaming");
    assert_eq!(SessionStatus::Idle.to_string(), "Idle");
    assert_eq!(SessionStatus::Completed.to_string(), "Completed");
}

#[test]
fn unknown_model_error_names_the_id() {
    assert_eq!(ModelType::parse_name("gpt-4"), Err("unknown model: gpt-4".to_string()));
    // The first family named wins.
    assert_eq!(ModelType::parse_name("opus-vs-haiku"), Ok(ModelType::Opus));
    assert_eq!(ModelType::parse_name("SONNET-or-haiku"), Ok(ModelType::Sonnet));
}

#[test]
fn display_names_parse_back() {
    for m in [ModelType::Opus, ModelType::Sonnet, ModelType::Haiku] {
        assert_eq!(m.as_str().parse::<ModelType>().unwrap(), m);
        assert_eq!(m.as_stored_str().parse::<ModelType>().unwrap(), m);
    }
}

#[test]
fn stored_names_round_trip() {
    for s in [SessionStatus::Streaming, SessionStatus::Idle, SessionStatus::Completed] {
        assert_eq!(SessionStatus::from_stored(s.as_stored_str()), s);
    }
    assert_eq!(SessionStatus::from_stored("weird"), SessionStatus::Idle);
    assert_eq!(DataSource::from_stored("log"), DataSource::Log);
    assert_eq!(DataSource::from_stored("api"), DataSource::Api);
    assert_eq!(DataSource::from_stored("LOG"), DataSource::Api);
    assert_eq!(ModelType::Sonnet.as_stored_str(), "sonnet");
}

#[test]
fn timestamp_millis_and_order() {
    let t = Timestamp { secs: 1_772_706_600, nanos: 123_456_789 };
    assert_eq!(t.timestamp_millis(), 1_772_706_600_123);
    let before = Timestamp { secs: -1, nanos: 500_000_000 };
    assert_eq!(before.timestamp_millis(), -500);
    assert!(t.is_after(&before));
    assert!(!before.is_after(&t));
    assert!(!t.is_after(&t));
}

#[test]
fn display_name_parses_back() {
    for m in [ModelType::Opus, ModelType::Sonnet, ModelType::Haiku] {
        assert_eq!(ModelType::parse_name(&m.to_string()), Ok(m));
        assert_eq!(m.to_string().parse::<ModelType>(), Ok(m));
    }
}

#[test]
fn stored_model_names_fall_back_to_sonnet() {
    assert_eq!(ModelType::from_stored_or_default("opus"), ModelType::Opus);
    assert_eq!(ModelType::from_stored_or_default("haiku"), ModelType::Haiku);
    assert_eq!(ModelType::from_stored_or_default("gpt-4"), ModelType::Sonnet);
    assert_eq!(ModelType::from_stored_or_default(""), ModelType::Sonnet);
}
