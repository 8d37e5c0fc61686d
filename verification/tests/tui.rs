use usage_meter::chart::{chart_cutoff, chart_peak, chart_totals, tokens_on_day, DayTokens, DayTotals};
use usage_meter::models::{ModelType, SessionStatus};
use usage_meter::tui::{
    session_status_label, spinner_frame, streaming_count, KeyEffect, KeyInput, Tab,
    TimeRangeSelection, UiState,
};

#[test]
fn tabs_cycle_both_ways() {
    let mut s = UiState::new();
    assert_eq!(s.current_tab, Tab::Tokens);
    s.handle_key(KeyInput::Left, 0, 0);
    assert_eq!(s.current_tab, Tab::Live);
    s.handle_key(KeyInput::Right, 0, 0);
    assert_eq!(s.current_tab, Tab::Tokens);
    for expected in [Tab::Costs, Tab::Models, Tab::Live, Tab::Tokens] {
        s.handle_key(KeyInput::Right, 0, 0);
        assert_eq!(s.current_tab, expected);
    }
    assert_eq!(Tab::from_index(5), Tab::Costs);
    assert_eq!(Tab::Models.index(), 2);
    assert_eq!(Tab::Live.title(), "Live");
}

#[test]
fn keys_quit_refresh_and_ranges() {
    let mut s = UiState::new();
    assert_eq!(s.handle_key(KeyInput::Char('r'), 0, 0), KeyEffect::Refresh);
    assert!(!s.should_quit);
    s.handle_key(KeyInput::Char('3'), 0, 0);
    assert_eq!(s.time_range, TimeRangeSelection::NinetyDays);
    s.handle_key(KeyInput::Right, 0, 0);
    s.handle_key(KeyInput::Char('1'), 0, 0);
    assert_eq!(s.time_range, TimeRangeSelection::NinetyDays);
    assert_eq!(s.handle_key(KeyInput::Char('q'), 0, 0), KeyEffect::Nothing);
    assert!(s.should_quit);
    assert_eq!(TimeRangeSelection::ThirtyDays.days(), 30);
    assert_eq!(TimeRangeSelection::ThirtyDays.index(), 1);
}

#[test]
fn scrolling_stays_within_lists() {
    let mut s = UiState::new();
    s.handle_key(KeyInput::Right, 5, 2);
    assert_eq!(s.current_tab, Tab::Costs);
    for _ in 0..10 {
        s.handle_key(KeyInput::Down, 5, 2);
    }
    assert_eq!(s.project_scroll, 4);
    s.handle_key(KeyInput::Up, 5, 2);
    assert_eq!(s.project_scroll, 3);
    s.handle_key(KeyInput::Left, 5, 2);
    s.handle_key(KeyInput::Left, 5, 2);
    assert_eq!(s.current_tab, Tab::Live);
    for _ in 0..3 {
        s.handle_key(KeyInput::Down, 5, 2);
    }
    assert_eq!(s.session_selected, 1);
    s.handle_key(KeyInput::Up, 5, 2);
    s.handle_key(KeyInput::Up, 5, 2);
    assert_eq!(s.session_selected, 0);
    s.handle_key(KeyInput::Down, 5, 0);
    assert_eq!(s.session_selected, 0);
}

#[test]
fn live_status_labels() {
    assert_eq!(spinner_frame(0), ".");
    assert_eq!(spinner_frame(2), "...");
    assert_eq!(spinner_frame(11), " ");
    assert_eq!(session_status_label(SessionStatus::Streaming, 8), "Streaming ...");
    assert_eq!(session_status_label(SessionStatus::Idle, 8), "Idle");
    assert_eq!(session_status_label(SessionStatus::Completed, 0), "Completed");
    let st = [SessionStatus::Streaming, SessionStatus::Idle, SessionStatus::Streaming];
    assert_eq!(streaming_count(&st), 2);
    assert_eq!(streaming_count(&[]), 0);
}

fn agg(day: i64, input: u64, output: u64, cr: u64, cw: u64) -> DayTokens {
    DayTokens { day, model: ModelType::Sonnet, input, output, cache_read: cr, cache_write: cw }
}

#[test]
fn chart_sums_days_in_order_from_the_cutoff() {
    let data = [
        agg(10, 5, 1, 1, 1),
        agg(8, 100, 100, 100, 100),
        agg(12, 7, 0, 0, 0),
        agg(10, 3, 2, 0, 4),
        agg(11, 1, 1, 1, 1),
    ];
    let rows = chart_totals(&data, 9);
    assert_eq!(
        rows,
        vec![
            DayTotals { day: 10, input: 8, output: 3, cache: 6 },
            DayTotals { day: 11, input: 1, output: 1, cache: 2 },
            DayTotals { day: 12, input: 7, output: 0, cache: 0 },
        ]
    );
    assert_eq!(chart_peak(&rows), 17);
    assert_eq!(chart_peak(&[]), 1);
    assert!(chart_totals(&data, 13).is_empty());
    assert_eq!(chart_cutoff(100, TimeRangeSelection::SevenDays), 93);
}

#[test]
fn day_tokens_split_among_models() {
    let data = [
        DayTokens { day: 5, model: ModelType::Opus, input: 10, output: 2, cache_read: 9, cache_write: 9 },
        DayTokens { day: 5, model: ModelType::Sonnet, input: 3, output: 1, cache_read: 7, cache_write: 0 },
        DayTokens { day: 6, model: ModelType::Opus, input: 100, output: 1, cache_read: 0, cache_write: 0 },
        DayTokens { day: 5, model: ModelType::Opus, input: 4, output: 4, cache_read: 0, cache_write: 0 },
    ];
    assert_eq!(tokens_on_day(&data, 5, None), 24);
    assert_eq!(tokens_on_day(&data, 5, Some(ModelType::Opus)), 20);
    assert_eq!(tokens_on_day(&data, 5, Some(ModelType::Sonnet)), 4);
    assert_eq!(tokens_on_day(&data, 5, Some(ModelType::Haiku)), 0);
    assert_eq!(tokens_on_day(&data, 7, None), 0);
    assert_eq!(tokens_on_day(&[], 5, None), 0);
}
