//! The dashboard's navigation: tabs, chart ranges, key handling and the
//! live-session status labels.

use vstd::prelude::*;
use vstd::string::*;
use crate::models::SessionStatus;

verus! {

/// The dashboard's tabs, in display order.
#[derive(Debug, Clone, Copy, PartialEq, Eq, Structural)]
pub enum Tab {
    Tokens,
    Costs,
    Models,
    Live,
}

/// How many tabs there are.
pub const TAB_COUNT: usize = 4;

impl Tab {
    pub open spec fn spec_index(self) -> usize {
        match self {
            Tab::Tokens => 0,
            Tab::Costs => 1,
            Tab::Models => 2,
            Tab::Live => 3,
        }
    }

    /// The tab at a position, counted cyclically.
    pub open spec fn spec_from_index(i: usize) -> Tab {
        let k = i % 4;
        if k == 0 {
            Tab::Tokens
        } else if k == 1 {
            Tab::Costs
        } else if k == 2 {
            Tab::Models
        } else {
            Tab::Live
        }
    }

    pub open spec fn spec_title(self) -> Seq<char> {
        match self {
            Tab::Tokens => "Tokens"@,
            Tab::Costs => "Costs"@,
            Tab::Models => "Models"@,
            Tab::Live => "Live"@,
        }
    }

    pub fn title(&self) -> (r: &'static str)
        ensures
            r@ == self.spec_title(),
    {
        match self {
            Tab::Tokens => "Tokens",
            Tab::Costs => "Costs",
            Tab::Models => "Models",
            Tab::Live => "Live",
        }
    }

    pub fn index(&self) -> (r: usize)
        ensures
            r == self.spec_index(),
            r < TAB_COUNT,
    {
        match self {
            Tab::Tokens => 0,
            Tab::Costs => 1,
            Tab::Models => 2,
            Tab::Live => 3,
        }
    }

    pub fn from_index(i: usize) -> (r: Tab)
        ensures
            r == Tab::spec_from_index(i),
    {
        let k = i % TAB_COUNT;
        if k == 0 {
            Tab::Tokens
        } else if k == 1 {
            Tab::Costs
        } else if k == 2 {
            Tab::Models
        } else {
            Tab::Live
        }
    }

    /// The tab to the left, wrapping from the first to the last.
    pub open spec fn left(self) -> Tab {
        if self.spec_index() == 0 {
            Tab::spec_from_index((TAB_COUNT - 1) as usize)
        } else {
            Tab::spec_from_index((self.spec_index() - 1) as usize)
        }
    }

    /// The tab to the right, wrapping from the last to the first.
    pub open spec fn right(self) -> Tab {
        Tab::spec_from_index((self.spec_index() + 1) as usize)
    }
}

/// The span of days the token chart shows.
#[derive(Debug, Clone, Copy, PartialEq, Eq, Structural)]
pub enum TimeRangeSelection {
    SevenDays,
    ThirtyDays,
    NinetyDays,
}

impl TimeRangeSelection {
    pub open spec fn spec_days(self) -> i64 {
        match self {
            TimeRangeSelection::SevenDays => 7,
            TimeRangeSelection::ThirtyDays => 30,
            TimeRangeSelection::NinetyDays => 90,
        }
    }

    pub open spec fn spec_index(self) -> usize {
        match self {
            TimeRangeSelection::SevenDays => 0,
            TimeRangeSelection::ThirtyDays => 1,
            TimeRangeSelection::NinetyDays => 2,
        }
    }

    pub fn days(&self) -> (r: i64)
        ensures
            r == self.spec_days(),
    {
        match self {
            TimeRangeSelection::SevenDays => 7,
            TimeRangeSelection::ThirtyDays => 30,
            TimeRangeSelection::NinetyDays => 90,
        }
    }

    pub fn index(&self) -> (r: usize)
        ensures
            r == self.spec_index(),
    {
        match self {
            TimeRangeSelection::SevenDays => 0,
            TimeRangeSelection::ThirtyDays => 1,
            TimeRangeSelection::NinetyDays => 2,
        }
    }
}

/// A key press, as far as the dashboard tells keys apart.
#[derive(Debug, Clone, Copy, PartialEq, Eq, Structural)]
pub enum KeyInput {
    Char(char),
    Left,
    Right,
    Up,
    Down,
    Other,
}

/// What a key asks of the surrounding program beyond the state change.
#[derive(Debug, Clone, Copy, PartialEq, Eq, Structural)]
pub enum KeyEffect {
    Nothing,
    Refresh,
}

/// The navigation state of the dashboard.
#[derive(Debug, Clone, Copy, PartialEq, Eq, Structural)]
pub struct UiState {
    pub current_tab: Tab,
    pub should_quit: bool,
    pub time_range: TimeRangeSelection,
    pub project_scroll: usize,
    pub session_selected: usize,
}

/// A position moved one step down a list of `count` items, staying on the
/// last item.
pub open spec fn step_down(pos: usize, count: usize) -> usize {
    if pos + 1 < count {
        (pos + 1) as usize
    } else {
        pos
    }
}

/// A position moved one step up, staying on the first item.
pub open spec fn step_up(pos: usize) -> usize {
    if pos > 0 {
        (pos - 1) as usize
    } else {
        0
    }
}

/// The state after a key press, with `project_count` project rows on the
/// costs tab and `session_count` sessions on the live tab.
pub open spec fn key_transition(s: UiState, key: KeyInput, project_count: usize, session_count: usize) -> UiState {
    match key {
        KeyInput::Char(c) => if c == 'q' {
            UiState { should_quit: true, ..s }
        } else if c == '1' && s.current_tab == Tab::Tokens {
            UiState { time_range: TimeRangeSelection::SevenDays, ..s }
        } else if c == '2' && s.current_tab == Tab::Tokens {
            UiState { time_range: TimeRangeSelection::ThirtyDays, ..s }
        } else if c == '3' && s.current_tab == Tab::Tokens {
            UiState { time_range: TimeRangeSelection::NinetyDays, ..s }
        } else {
            s
        },
        KeyInput::Left => UiState { current_tab: s.current_tab.left(), ..s },
        KeyInput::Right => UiState { current_tab: s.current_tab.right(), ..s },
        KeyInput::Up => match s.current_tab {
            Tab::Costs => UiState { project_scroll: step_up(s.project_scroll), ..s },
            Tab::Live => UiState { session_selected: step_up(s.session_selected), ..s },
            _ => s,
        },
        KeyInput::Down => match s.current_tab {
            Tab::Costs => UiState { project_scroll: step_down(s.project_scroll, project_count), ..s },
            Tab::Live => UiState {
                session_selected: step_down(s.session_selected, session_count),
                ..s
            },
            _ => s,
        },
        KeyInput::Other => s,
    }
}

impl UiState {
    /// The state the dashboard starts in: the tokens tab over seven days,
    /// nothing scrolled or selected.
    pub fn new() -> (r: UiState)
        ensures
            r.current_tab == Tab::Tokens,
            !r.should_quit,
            r.time_range == TimeRangeSelection::SevenDays,
            r.project_scroll == 0,
            r.session_selected == 0,
    {
        UiState {
            current_tab: Tab::Tokens,
            should_quit: false,
            time_range: TimeRangeSelection::SevenDays,
            project_scroll: 0,
            session_selected: 0,
        }
    }

    /// Handles a key press: 'q' quits, 'r' asks for a refresh, left and
    /// right cycle through the tabs, '1' to '3' pick the chart range on the
    /// tokens tab, up and down scroll the project list on the costs tab and
    /// the session list on the live tab.
    pub fn handle_key(&mut self, key: KeyInput, project_count: usize, session_count: usize) -> (r: KeyEffect)
        ensures
            *final(self) == key_transition(*old(self), key, project_count, session_count),
            r == (if key == KeyInput::Char('r') { KeyEffect::Refresh } else { KeyEffect::Nothing }),
    {
        match key {
            KeyInput::Char(c) => {
                if c == 'q' {
                    self.should_quit = true;
                } else if c == 'r' {
                    return KeyEffect::Refresh;
                } else if c == '1' && self.current_tab == Tab::Tokens {
                    self.time_range = TimeRangeSelection::SevenDays;
                } else if c == '2' && self.current_tab == Tab::Tokens {
                    self.time_range = TimeRangeSelection::ThirtyDays;
                } else if c == '3' && self.current_tab == Tab::Tokens {
                    self.time_range = TimeRangeSelection::NinetyDays;
                }
            },
            KeyInput::Left => {
                let idx = self.current_tab.index();
                self.current_tab = if idx == 0 {
                    Tab::from_index(TAB_COUNT - 1)
                } else {
                    Tab::from_index(idx - 1)
                };
            },
            KeyInput::Right => {
                let idx = self.current_tab.index();
                self.current_tab = Tab::from_index(idx + 1);
            },
            KeyInput::Up => match self.current_tab {
                Tab::Costs => {
                    if self.project_scroll > 0 {
                        self.project_scroll = self.project_scroll - 1;
                    }
                },
                Tab::Live => {
                    if self.session_selected > 0 {
                        self.session_selected = self.session_selected - 1;
                    }
                },
                _ => {},
            },
            KeyInput::Down => match self.current_tab {
                Tab::Costs => {
                    if project_count > 0 && self.project_scroll < project_count - 1 {
                        self.project_scroll = self.project_scroll + 1;
                    }
                },
                Tab::Live => {
                    if session_count > 0 && self.session_selected < session_count - 1 {
                        self.session_selected = self.session_selected + 1;
                    }
                },
                _ => {},
            },
            KeyInput::Other => {},
        }
        KeyEffect::Nothing
    }
}

/// Moving a tab to the right and then back to the left, or the other way
/// round, returns to the tab one started from; four moves in one direction
/// go all the way round.
pub proof fn law_tab_navigation(t: Tab)
    ensures
        t.right().left() == t,
        t.left().right() == t,
        t.right().right().right().right() == t,
        Tab::spec_from_index(t.spec_index()) == t,
{
}

/// Scrolling never leaves a non-empty list: a position on an item stays on
/// an item, whatever key is pressed.
pub proof fn law_scroll_stays_in_list(s: UiState, key: KeyInput, project_count: usize, session_count: usize)
    ensures
        s.project_scroll < project_count ==> key_transition(s, key, project_count, session_count).project_scroll
            < project_count,
        s.session_selected < session_count ==> key_transition(s, key, project_count, session_count).session_selected
            < session_count,
        key_transition(s, key, project_count, session_count).project_scroll <= s.project_scroll + 1,
        key_transition(s, key, project_count, session_count).session_selected <= s.session_selected + 1,
{
}

/// The range keys act on the tokens tab only; elsewhere the chart range is
/// left as it was.
pub proof fn law_range_keys_only_on_tokens(s: UiState, c: char, project_count: usize, session_count: usize)
    requires
        s.current_tab != Tab::Tokens,
    ensures
        key_transition(s, KeyInput::Char(c), project_count, session_count).time_range == s.time_range,
{
}

/// On the tokens tab each digit key picks its own range: '1' the seven-day
/// chart, '2' the thirty-day chart and '3' the ninety-day chart, whatever
/// range was shown before; nothing else about the state changes.
pub proof fn law_range_keys_pick_their_range(s: UiState, project_count: usize, session_count: usize)
    requires
        s.current_tab == Tab::Tokens,
    ensures
        key_transition(s, KeyInput::Char('1'), project_count, session_count) == (UiState {
            time_range: TimeRangeSelection::SevenDays,
            ..s
        }),
        key_transition(s, KeyInput::Char('2'), project_count, session_count) == (UiState {
            time_range: TimeRangeSelection::ThirtyDays,
            ..s
        }),
        key_transition(s, KeyInput::Char('3'), project_count, session_count) == (UiState {
            time_range: TimeRangeSelection::NinetyDays,
            ..s
        }),
{
}

/// Each chart range spans the number of days it is named for, and the
/// ranges are listed in order of length.
pub proof fn law_range_spans(r: TimeRangeSelection)
    ensures
        TimeRangeSelection::SevenDays.spec_days() == 7,
        TimeRangeSelection::ThirtyDays.spec_days() == 30,
        TimeRangeSelection::NinetyDays.spec_days() == 90,
        r.spec_days() == 7 || r.spec_days() == 30 || r.spec_days() == 90,
        r.spec_index() == 0 <==> r.spec_days() == 7,
        r.spec_index() == 1 <==> r.spec_days() == 30,
        r.spec_index() == 2 <==> r.spec_days() == 90,
{
}

/// The frames of the streaming animation.
pub open spec fn spinner_frames() -> Seq<Seq<char>> {
    seq!["."@, ".."@, "..."@, ".."@, "."@, " "@]
}

/// The animation frame shown at a tick.
pub fn spinner_frame(tick: usize) -> (r: &'static str)
    ensures
        r@ == spinner_frames()[(tick % 6) as int],
{
    let k = tick % 6;
    if k == 0 {
        "."
    } else if k == 1 {
        ".."
    } else if k == 2 {
        "..."
    } else if k == 3 {
        ".."
    } else if k == 4 {
        "."
    } else {
        " "
    }
}

/// The status column of a live session: streaming sessions animate.
pub open spec fn status_label_spec(status: SessionStatus, tick: usize) -> Seq<char> {
    match status {
        SessionStatus::Streaming => "Streaming "@ + spinner_frames()[(tick % 6) as int],
        SessionStatus::Idle => "Idle"@,
        SessionStatus::Completed => "Completed"@,
    }
}

pub fn session_status_label(status: SessionStatus, tick: usize) -> (r: String)
    ensures
        r@ == status_label_spec(status, tick),
{
    match status {
        SessionStatus::Streaming => {
            let mut s = String::from_str("Streaming ");
            s.append(spinner_frame(tick));
            s
        },
        SessionStatus::Idle => String::from_str("Idle"),
        SessionStatus::Completed => String::from_str("Completed"),
    }
}

/// The number of streaming sessions among `statuses`.
pub open spec fn streaming_count_spec(statuses: Seq<SessionStatus>) -> nat
    decreases statuses.len(),
{
    if statuses.len() == 0 {
        0
    } else {
        streaming_count_spec(statuses.drop_last()) + (if statuses.last() == SessionStatus::Streaming {
            1nat
        } else {
            0nat
        })
    }
}

/// Counts the sessions that are streaming.
pub fn streaming_count(statuses: &[SessionStatus]) -> (r: usize)
    ensures
        r == streaming_count_spec(statuses@),
{
    let mut n: usize = 0;
    let mut i: usize = 0;
    while i < statuses.len()
        invariant
            i <= statuses@.len(),
            n == streaming_count_spec(statuses@.subrange(0, i as int)),
            n <= i,
        decreases statuses.len() - i,
    {
        assert(statuses@.subrange(0, i + 1).drop_last() =~= statuses@.subrange(0, i as int));
        if statuses[i] == SessionStatus::Streaming {
            n = n + 1;
        }
        i = i + 1;
    }
    assert(statuses@.subrange(0, statuses@.len() as int) =~= statuses@);
    n
}

} // verus!
