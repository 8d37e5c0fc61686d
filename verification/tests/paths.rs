use usage_meter::paths::{config_path_from, db_path_from, socket_path_from};
use usage_meter::queries::{
    daily_aggregates_statement, session_filter, session_page_statement, usage_count_statement,
    usage_filter, usage_page_statement, SqlParam,
};
use usage_meter::models::{ModelType, SessionStatus};

#[test]
fn socket_path_resolution_order() {
    assert_eq!(socket_path_from(Some("/custom/path.sock"), Some("/run/u"), 7), "/custom/path.sock");
    assert_eq!(socket_path_from(None, Some("/run/user/1000"), 7), "/run/user/1000/usage-meter.sock");
    assert_eq!(socket_path_from(None, Some("/run/"), 7), "/run/usage-meter.sock");
    assert_eq!(socket_path_from(None, None, 501), "/tmp/usage-meter-501.sock");
}

#[test]
fn data_paths() {
    assert_eq!(db_path_from(Some("/data"), Some("/home/u")), "/data/usage-meter/usage.db");
    assert_eq!(db_path_from(None, Some("/home/u")), "/home/u/.local/share/usage-meter/usage.db");
    assert_eq!(db_path_from(None, None), "/tmp/usage-meter/usage.db");
    assert_eq!(config_path_from(Some("/home/u")), "/home/u/.config/usage-meter/config.toml");
    assert_eq!(config_path_from(None), "/tmp/usage-meter/config.toml");
    assert!(db_path_from(Some(""), None).contains("usage.db"));
}

#[test]
fn usage_filters_become_conditions() {
    let (w, binds) = usage_filter(None, None, None);
    assert_eq!(w, "");
    assert!(binds.is_empty());
    let (w, binds) = usage_filter(Some(("a", "b")), Some(ModelType::Opus), Some("proj"));
    assert_eq!(w, "WHERE timestamp >= ? AND timestamp <= ? AND model = ? AND project = ?");
    assert_eq!(
        binds,
        vec![
            SqlParam::Text("a".to_string()),
            SqlParam::Text("b".to_string()),
            SqlParam::Text("opus".to_string()),
            SqlParam::Text("proj".to_string()),
        ]
    );
    let count = usage_count_statement(usage_filter(None, Some(ModelType::Haiku), None));
    assert_eq!(count.sql, "SELECT COUNT(*) FROM usage_records WHERE model = ?");
    let page = usage_page_statement(usage_filter(None, None, None), 100, 5);
    assert!(page.sql.ends_with("FROM usage_records  ORDER BY timestamp DESC LIMIT ? OFFSET ?"));
    assert_eq!(page.params, vec![SqlParam::Integer(100), SqlParam::Integer(5)]);
}

#[test]
fn session_and_daily_statements() {
    let (w, binds) = session_filter(Some(SessionStatus::Streaming));
    assert_eq!(w, "WHERE status = ?");
    assert_eq!(binds, vec![SqlParam::Text("streaming".to_string())]);
    let page = session_page_statement(session_filter(None), 50, 0);
    assert!(page.sql.starts_with("SELECT session_id, model, started_at"));
    assert!(page.sql.ends_with("FROM sessions  ORDER BY last_activity DESC LIMIT ? OFFSET ?"));
    let daily = daily_aggregates_statement("2026-03-01", "2026-03-05", Some(ModelType::Sonnet));
    assert!(daily.sql.ends_with("WHERE date >= ? AND date <= ? AND model = ? ORDER BY date ASC"));
    assert_eq!(daily.params.len(), 3);
}

#[test]
fn test_socket_path_env_override() {
    // The override variable holds "/custom/path.sock".
    assert_eq!(socket_path_from(Some("/custom/path.sock"), None, 1000), "/custom/path.sock");
    assert_eq!(socket_path_from(Some("/custom/path.sock"), Some("/run/user/1000"), 1000), "/custom/path.sock");
}

#[test]
fn test_db_path_returns_valid_path() {
    for (data, home) in [(None, Some("/home/u")), (Some("/data"), Some("/home/u")), (None, None)] {
        assert!(db_path_from(data, home).contains("usage.db"));
    }
}

#[test]
fn test_config_path_returns_toml() {
    for home in [Some("/home/u"), Some("/"), None] {
        assert!(config_path_from(home).ends_with("config.toml"));
    }
}
