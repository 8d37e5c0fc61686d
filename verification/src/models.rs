//! The vocabulary of usage accounting: model families, session states,
//! data sources, summary windows and instants in time.

use vstd::prelude::*;
use vstd::string::*;
use crate::text::{has_substring, str_contains, str_eq};

verus! {

/// A name for `str::to_lowercase` of std: the lowercase equivalent of a
/// string under the Unicode `Lowercase` derived property.
pub uninterp spec fn spec_lowercase(s: Seq<char>) -> Seq<char>;

/// Whether every character of `s` is ASCII.
pub open spec fn is_ascii(s: Seq<char>) -> bool {
    forall|i: int| 0 <= i < s.len() ==> (s[i] as u32) < 128
}

/// A character with 'A' to 'Z' mapped to 'a' to 'z'.
pub open spec fn ascii_lower_char(c: char) -> char {
    if 'A' <= c && c <= 'Z' {
        ((c as u32) + 32) as char
    } else {
        c
    }
}

/// ASCII text with 'A' to 'Z' mapped to 'a' to 'z' and every other
/// character kept.
pub open spec fn ascii_lowercase(s: Seq<char>) -> Seq<char> {
    s.map_values(|c: char| ascii_lower_char(c))
}

/// Calls `str::to_lowercase` of std. The contract names the result, and
/// states the one case it spells out: on ASCII text the Unicode lowercase
/// mapping maps 'A' to 'Z' onto 'a' to 'z' and keeps every other
/// character. What it does with other characters is left to std's Unicode
/// tables and is not stated.
#[verifier::external_body]
fn lowercase(s: &str) -> (r: String)
    ensures
        r@ == spec_lowercase(s@),
        is_ascii(s@) ==> r@ == ascii_lowercase(s@),
{
    s.to_lowercase()
}

/// A model family of the assistant whose usage is tracked.
#[derive(Debug, Clone, Copy, PartialEq, Eq, Hash, Structural)]
pub enum ModelType {
    Opus,
    Sonnet,
    Haiku,
}

/// The family named by an already-lowercased model id: the first of
/// "opus", "sonnet", "haiku" that occurs in it.
pub open spec fn model_in_lowercase(lower: Seq<char>) -> Option<ModelType> {
    if has_substring(lower, "opus"@) {
        Some(ModelType::Opus)
    } else if has_substring(lower, "sonnet"@) {
        Some(ModelType::Sonnet)
    } else if has_substring(lower, "haiku"@) {
        Some(ModelType::Haiku)
    } else {
        None
    }
}

/// The family named by a model id in any letter case.
pub open spec fn model_named(s: Seq<char>) -> Option<ModelType> {
    model_in_lowercase(spec_lowercase(s))
}

impl ModelType {
    /// The display name: "Opus", "Sonnet" or "Haiku".
    pub open spec fn name(self) -> Seq<char> {
        match self {
            ModelType::Opus => "Opus"@,
            ModelType::Sonnet => "Sonnet"@,
            ModelType::Haiku => "Haiku"@,
        }
    }

    /// The stored form of the family: its display name in lowercase.
    pub open spec fn stored_name(self) -> Seq<char> {
        match self {
            ModelType::Opus => "opus"@,
            ModelType::Sonnet => "sonnet"@,
            ModelType::Haiku => "haiku"@,
        }
    }

    pub fn as_str(&self) -> (r: &'static str)
        ensures
            r@ == self.name(),
    {
        match self {
            ModelType::Opus => "Opus",
            ModelType::Sonnet => "Sonnet",
            ModelType::Haiku => "Haiku",
        }
    }

    /// The display form of the family, as `Display` renders it.
    pub fn to_string(&self) -> (r: String)
        ensures
            r@ == self.name(),
    {
        String::from_str(self.as_str())
    }

    /// The lowercase name under which the family is stored and filtered.
    pub fn as_stored_str(&self) -> (r: &'static str)
        ensures
            r@ == self.stored_name(),
    {
        match self {
            ModelType::Opus => "opus",
            ModelType::Sonnet => "sonnet",
            ModelType::Haiku => "haiku",
        }
    }

    /// Classifies an already-lowercased model id.
    pub fn from_lowercase(lower: &str) -> (r: Option<ModelType>)
        ensures
            r == model_in_lowercase(lower@),
    {
        if str_contains(lower, "opus") {
            Some(ModelType::Opus)
        } else if str_contains(lower, "sonnet") {
            Some(ModelType::Sonnet)
        } else if str_contains(lower, "haiku") {
            Some(ModelType::Haiku)
        } else {
            None
        }
    }

    /// Parses full model ids like "vendor-opus-4-6" or short names like
    /// "Sonnet", in any letter case; an id naming no known family is
    /// refused with "unknown model: " followed by the id.
    pub fn parse_name(s: &str) -> (r: Result<ModelType, String>)
        ensures
            match r {
                Ok(m) => model_named(s@) == Some(m),
                Err(e) => model_named(s@) is None && e@ == "unknown model: "@ + s@,
            },
            is_ascii(s@) ==> match r {
                Ok(m) => model_in_lowercase(ascii_lowercase(s@)) == Some(m),
                Err(_) => model_in_lowercase(ascii_lowercase(s@)) is None,
            },
    {
        let lower = lowercase(s);
        match ModelType::from_lowercase(lower.as_str()) {
            Some(m) => Ok(m),
            None => {
                let mut e = String::from_str("unknown model: ");
                e.append(s);
                Err(e)
            }
        }
    }
}

impl ModelType {
    /// Reads the model column of an aggregate row: the family the stored
    /// name names, Sonnet when it names none.
    pub fn from_stored_or_default(s: &str) -> (r: ModelType)
        ensures
            r == (match model_named(s@) {
                Some(m) => m,
                None => ModelType::Sonnet,
            }),
    {
        match ModelType::parse_name(s) {
            Ok(m) => m,
            Err(_) => ModelType::Sonnet,
        }
    }
}

/// "opus", "sonnet" and "haiku" each name exactly their own family.
proof fn lemma_stored_names_classify(m: ModelType)
    ensures
        model_in_lowercase(m.stored_name()) == Some(m),
{
    reveal_strlit("opus");
    reveal_strlit("sonnet");
    reveal_strlit("haiku");
    let o = "opus"@;
    let so = "sonnet"@;
    let h = "haiku"@;
    assert(o.subrange(0, 0 + o.len() as int) =~= o);
    assert(so.subrange(0, 0 + so.len() as int) =~= so);
    assert(h.subrange(0, 0 + h.len() as int) =~= h);
    assert forall|i: int| 0 <= i && i + 4 <= 6 implies #[trigger] so.subrange(i, i + 4) != o by {
        assert(so.subrange(i, i + 4)[0] != o[0] || so.subrange(i, i + 4)[1] != o[1]);
    }
    assert forall|i: int| 0 <= i && i + 4 <= 5 implies #[trigger] h.subrange(i, i + 4) != o by {
        assert(h.subrange(i, i + 4)[0] != o[0] || h.subrange(i, i + 4)[1] != o[1]);
    }
}

/// What a family displays as reads back as that family: its display name
/// is ASCII, and lowercased it names the family it came from.
pub proof fn law_display_name_parses_back(m: ModelType)
    ensures
        is_ascii(m.name()),
        model_in_lowercase(ascii_lowercase(m.name())) == Some(m),
{
    reveal_strlit("Opus");
    reveal_strlit("Sonnet");
    reveal_strlit("Haiku");
    reveal_strlit("opus");
    reveal_strlit("sonnet");
    reveal_strlit("haiku");
    assert(ascii_lowercase(m.name()) =~= m.stored_name());
    lemma_stored_names_classify(m);
}

impl std::str::FromStr for ModelType {
    type Err = String;

    /// Parses a model id as `parse_name` does.
    fn from_str(s: &str) -> (r: Result<Self, Self::Err>)
        ensures
            match r {
                Ok(m) => model_named(s@) == Some(m),
                Err(e) => model_named(s@) is None && e@ == "unknown model: "@ + s@,
            },
            is_ascii(s@) ==> match r {
                Ok(m) => model_in_lowercase(ascii_lowercase(s@)) == Some(m),
                Err(_) => model_in_lowercase(ascii_lowercase(s@)) is None,
            },
    {
        ModelType::parse_name(s)
    }
}

/// Where a usage session stands.
#[derive(Debug, Clone, Copy, PartialEq, Eq, Hash, Structural)]
pub enum SessionStatus {
    Streaming,
    Idle,
    Completed,
}

impl SessionStatus {
    /// The display name: "Streaming", "Idle" or "Completed".
    pub open spec fn name(self) -> Seq<char> {
        match self {
            SessionStatus::Streaming => "Streaming"@,
            SessionStatus::Idle => "Idle"@,
            SessionStatus::Completed => "Completed"@,
        }
    }

    /// The stored form: the display name in lowercase.
    pub open spec fn stored_name(self) -> Seq<char> {
        match self {
            SessionStatus::Streaming => "streaming"@,
            SessionStatus::Idle => "idle"@,
            SessionStatus::Completed => "completed"@,
        }
    }

    /// The display form of the status, as `Display` renders it.
    pub fn to_string(&self) -> (r: String)
        ensures
            r@ == self.name(),
    {
        match self {
            SessionStatus::Streaming => String::from_str("Streaming"),
            SessionStatus::Idle => String::from_str("Idle"),
            SessionStatus::Completed => String::from_str("Completed"),
        }
    }

    pub fn as_stored_str(&self) -> (r: &'static str)
        ensures
            r@ == self.stored_name(),
    {
        match self {
            SessionStatus::Streaming => "streaming",
            SessionStatus::Idle => "idle",
            SessionStatus::Completed => "completed",
        }
    }

    /// Reads a stored status: "streaming" and "completed" are recognised,
    /// anything else reads as idle.
    pub fn from_stored(s: &str) -> (r: SessionStatus)
        ensures
            r == (if s@ == "streaming"@ {
                SessionStatus::Streaming
            } else if s@ == "completed"@ {
                SessionStatus::Completed
            } else {
                SessionStatus::Idle
            }),
    {
        if str_eq(s, "streaming") {
            SessionStatus::Streaming
        } else if str_eq(s, "completed") {
            SessionStatus::Completed
        } else {
            SessionStatus::Idle
        }
    }
}

/// Where a usage record came from.
#[derive(Debug, Clone, Copy, PartialEq, Eq, Structural)]
pub enum DataSource {
    Api,
    Log,
}

impl DataSource {
    pub open spec fn stored_name(self) -> Seq<char> {
        match self {
            DataSource::Api => "api"@,
            DataSource::Log => "log"@,
        }
    }

    pub fn as_stored_str(&self) -> (r: &'static str)
        ensures
            r@ == self.stored_name(),
    {
        match self {
            DataSource::Api => "api",
            DataSource::Log => "log",
        }
    }

    /// Reads a stored source: "log" is a log record, anything else an API one.
    pub fn from_stored(s: &str) -> (r: DataSource)
        ensures
            r == (if s@ == "log"@ { DataSource::Log } else { DataSource::Api }),
    {
        if str_eq(s, "log") {
            DataSource::Log
        } else {
            DataSource::Api
        }
    }
}

/// The granularity a usage summary is asked for.
#[derive(Debug, Clone, Copy, PartialEq, Eq, Structural)]
pub enum TimeWindow {
    Day,
    Week,
    Month,
    Quarter,
}

/// An instant: whole seconds since the Unix epoch and the nanoseconds past
/// that second (up to two seconds' worth during a leap second).
#[derive(Debug, Clone, Copy, PartialEq, Eq, Structural)]
pub struct Timestamp {
    pub secs: i64,
    pub nanos: u32,
}

impl Timestamp {
    /// Within the range of instants that the calendar library represents.
    pub open spec fn wf(self) -> bool {
        &&& -8_300_000_000_000 < self.secs < 8_300_000_000_000
        &&& self.nanos < 2_000_000_000
    }

    /// Milliseconds since the epoch: whole seconds times a thousand plus the
    /// milliseconds of the fraction.
    pub open spec fn millis(self) -> int {
        self.secs * 1000 + self.nanos / 1_000_000
    }

    /// Strictly later than `other`.
    pub open spec fn after(self, other: Timestamp) -> bool {
        self.secs > other.secs || (self.secs == other.secs && self.nanos > other.nanos)
    }

    pub fn timestamp_millis(&self) -> (r: i64)
        requires
            self.wf(),
        ensures
            r == self.millis(),
    {
        self.secs * 1000 + (self.nanos / 1_000_000) as i64
    }

    pub fn is_after(&self, other: &Timestamp) -> (r: bool)
        ensures
            r == self.after(*other),
    {
        self.secs > other.secs || (self.secs == other.secs && self.nanos > other.nanos)
    }
}

} // verus!
