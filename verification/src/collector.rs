//! Reading usage out of local conversation logs: which files are logs,
//! how far each has been read, and how one JSON log entry becomes a usage
//! record (validation, model recognition and a deterministic identity).

use vstd::prelude::*;
use vstd::string::*;
use crate::text::{
    decimal, signed_decimal, push_decimal, push_signed_decimal, str_eq, has_char,
    lemma_decimal_digits, lemma_decimal_injective, lemma_signed_decimal_injective,
    lemma_split_at_separator,
};
use crate::json::JsonValue;
use crate::errors::CollectorError;
use crate::models::{ModelType, Timestamp, model_named};
use crate::paths::{path_join, push_path_component};

verus! {

/// How often the collector scans, and where it looks.
#[derive(Debug, Clone)]
pub struct CollectorConfig {
    pub poll_interval_secs: u64,
    pub log_paths: Vec<String>,
}

/// Seconds between two scans of the log directories.
pub const DEFAULT_POLL_INTERVAL_SECS: u64 = 60;

/// The log directories under a home directory, for an assistant that
/// keeps its data in `.<name>` and its settings in `.config/<name>`:
/// conversation logs first, then the two older log locations.
pub open spec fn default_log_paths_spec(home: Option<Seq<char>>, name: Seq<char>) -> Seq<Seq<char>> {
    match home {
        Some(h) => seq![
            path_join(path_join(h, "."@ + name), "projects"@),
            path_join(path_join(h, "."@ + name), "logs"@),
            path_join(path_join(path_join(h, ".config"@), name), "logs"@),
        ],
        None => Seq::empty(),
    }
}

/// The log directories to scan for a process whose home directory is
/// `home`, reading the logs of the assistant called `name`.
pub fn default_log_paths(home: Option<&str>, name: &str) -> (r: Vec<String>)
    ensures
        r@.len() == (if home is Some { 3int } else { 0int }),
        r@.map_values(|p: String| p@) == default_log_paths_spec(
            match home {
                Some(h) => Some(h@),
                None => None,
            },
            name@,
        ),
{
    let mut paths: Vec<String> = Vec::new();
    match home {
        Some(h) => {
            let mut dot = String::from_str(".");
            dot.append(name);
            let mut a = String::from_str(h);
            push_path_component(&mut a, dot.as_str());
            push_path_component(&mut a, "projects");
            let mut b = String::from_str(h);
            push_path_component(&mut b, dot.as_str());
            push_path_component(&mut b, "logs");
            let mut c = String::from_str(h);
            push_path_component(&mut c, ".config");
            push_path_component(&mut c, name);
            push_path_component(&mut c, "logs");
            paths.push(a);
            paths.push(b);
            paths.push(c);
        },
        None => {},
    }
    proof {
        let want = default_log_paths_spec(
            match home {
                Some(h) => Some(h@),
                None => None,
            },
            name@,
        );
        assert(paths@.map_values(|p: String| p@) =~= want);
    }
    paths
}

impl CollectorConfig {
    /// The standard configuration for a process whose home directory is
    /// `home`, reading the logs of the assistant called `name`: a scan every
    /// sixty seconds over the default log directories.
    pub fn for_home(home: Option<&str>, name: &str) -> (r: CollectorConfig)
        ensures
            r.poll_interval_secs == DEFAULT_POLL_INTERVAL_SECS,
            r.log_paths@.len() == (if home is Some { 3int } else { 0int }),
            r.log_paths@.map_values(|p: String| p@) == default_log_paths_spec(
                match home {
                    Some(h) => Some(h@),
                    None => None,
                },
                name@,
            ),
    {
        CollectorConfig {
            poll_interval_secs: DEFAULT_POLL_INTERVAL_SECS,
            log_paths: default_log_paths(home, name),
        }
    }
}

/// Whether a file extension marks a log file: "jsonl" or "log".
pub fn is_log_extension(ext: Option<&str>) -> (r: bool)
    ensures
        r == (match ext {
            Some(e) => e@ == "jsonl"@ || e@ == "log"@,
            None => false,
        }),
{
    match ext {
        Some(e) => str_eq(e, "jsonl") || str_eq(e, "log"),
        None => false,
    }
}

/// What to do with one log file, given its length now and the offset up
/// to which it was read before.
#[derive(Debug, Clone, Copy, PartialEq, Eq, Structural)]
pub enum CursorStep {
    /// Nothing new: leave the cursor.
    Unchanged,
    /// The file shrank (it was truncated): start over from the beginning
    /// next time, reading nothing now.
    Reset,
    /// Read the bytes from this offset to the end, then move the cursor to
    /// the end.
    ReadFrom(u64),
}

/// Incremental reading of a log file: only bytes past the recorded offset
/// (zero for a file never seen) are read.
pub fn plan_read(file_len: u64, prev_offset: Option<u64>) -> (r: CursorStep)
    ensures
        ({
            let prev = match prev_offset {
                Some(p) => p,
                None => 0,
            };
            &&& file_len < prev ==> r == CursorStep::Reset
            &&& file_len == prev ==> r == CursorStep::Unchanged
            &&& file_len > prev ==> r == CursorStep::ReadFrom(prev)
        }),
{
    let prev = match prev_offset {
        Some(p) => p,
        None => 0,
    };
    if file_len <= prev {
        if file_len < prev {
            CursorStep::Reset
        } else {
            CursorStep::Unchanged
        }
    } else {
        CursorStep::ReadFrom(prev)
    }
}

/// The token counts of one request.
#[derive(Debug, Clone, Copy, PartialEq, Eq, Structural)]
pub struct UsageCounts {
    pub input_tokens: u64,
    pub output_tokens: u64,
    pub cache_read_tokens: u64,
    pub cache_write_tokens: u64,
}

impl UsageCounts {
    pub open spec fn all_zero(self) -> bool {
        self.input_tokens == 0 && self.output_tokens == 0 && self.cache_read_tokens == 0
            && self.cache_write_tokens == 0
    }
}

/// What a log entry says, before validation.
#[derive(Debug, Clone)]
pub struct LogFields {
    /// The top-level "timestamp" string.
    pub timestamp: Option<String>,
    /// The model id, from the message of a conversation entry or from the
    /// top level otherwise.
    pub model: Option<String>,
    /// The token counts, from the same place as the model; present when
    /// that place has a "usage" member.
    pub usage: Option<UsageCounts>,
    /// "sessionId", or else "session_id".
    pub session_id: Option<String>,
    pub project: Option<String>,
}

/// The string member `key` of `v`.
pub open spec fn member_string(v: JsonValue, key: Seq<char>) -> Option<String> {
    match v.member(key) {
        Some(m) => m.string_value(),
        None => None,
    }
}

/// A count read from an optional member: its value when it is an unsigned
/// integer, zero otherwise.
pub open spec fn count_or_zero(m: Option<JsonValue>) -> u64 {
    match m {
        Some(j) => match j.unsigned() {
            Some(n) => n,
            None => 0,
        },
        None => 0,
    }
}

/// A count stored under `key`, or under `fallback` when `key` is absent.
pub open spec fn count_with_fallback(usage: JsonValue, key: Seq<char>, fallback: Seq<char>) -> u64 {
    match usage.member(key) {
        Some(j) => count_or_zero(Some(j)),
        None => count_or_zero(usage.member(fallback)),
    }
}

/// The token counts of a "usage" object. Conversation logs name the cache
/// counts "cache_read_input_tokens" and "cache_creation_input_tokens";
/// other logs "cache_read_tokens" and "cache_write_tokens".
pub open spec fn counts_of(usage: JsonValue) -> UsageCounts {
    UsageCounts {
        input_tokens: count_or_zero(usage.member("input_tokens"@)),
        output_tokens: count_or_zero(usage.member("output_tokens"@)),
        cache_read_tokens: count_with_fallback(
            usage,
            "cache_read_input_tokens"@,
            "cache_read_tokens"@,
        ),
        cache_write_tokens: count_with_fallback(
            usage,
            "cache_creation_input_tokens"@,
            "cache_write_tokens"@,
        ),
    }
}

/// A conversation entry: of type "assistant", with a "message".
pub open spec fn is_conversation_entry(v: JsonValue) -> bool {
    (match v.member("type"@) {
        Some(t) => t.text() == Some("assistant"@),
        None => false,
    }) && v.member("message"@) is Some
}

/// Where model and usage are read: the message of a conversation entry,
/// the entry itself otherwise.
pub open spec fn usage_holder(v: JsonValue) -> JsonValue {
    if is_conversation_entry(v) {
        v.member("message"@)->0
    } else {
        v
    }
}

/// The fields of a log entry.
pub open spec fn log_fields_of(v: JsonValue) -> LogFields {
    let holder = usage_holder(v);
    LogFields {
        timestamp: member_string(v, "timestamp"@),
        model: member_string(holder, "model"@),
        usage: match holder.member("usage"@) {
            Some(u) => Some(counts_of(u)),
            None => None,
        },
        session_id: match v.member("sessionId"@) {
            Some(s) => s.string_value(),
            None => member_string(v, "session_id"@),
        },
        project: member_string(v, "project"@),
    }
}

/// The string member `key` of `v`, copied.
fn string_member(v: &JsonValue, key: &str) -> (r: Option<String>)
    ensures
        r == member_string(*v, key@),
{
    match v.get(key) {
        Some(m) => match m.as_string() {
            Some(s) => Some(s.clone()),
            None => None,
        },
        None => None,
    }
}

/// A count from an optional member.
fn count_of(m: Option<&JsonValue>) -> (r: u64)
    ensures
        r == count_or_zero(
            match m {
                Some(j) => Some(*j),
                None => None,
            },
        ),
{
    match m {
        Some(j) => match j.as_u64() {
            Some(n) => n,
            None => 0,
        },
        None => 0,
    }
}

/// The token counts of a "usage" object.
pub fn read_counts(usage: &JsonValue) -> (r: UsageCounts)
    ensures
        r == counts_of(*usage),
{
    let input_tokens = count_of(usage.get("input_tokens"));
    let output_tokens = count_of(usage.get("output_tokens"));
    let cache_read_tokens = match usage.get("cache_read_input_tokens") {
        Some(j) => count_of(Some(j)),
        None => count_of(usage.get("cache_read_tokens")),
    };
    let cache_write_tokens = match usage.get("cache_creation_input_tokens") {
        Some(j) => count_of(Some(j)),
        None => count_of(usage.get("cache_write_tokens")),
    };
    UsageCounts { input_tokens, output_tokens, cache_read_tokens, cache_write_tokens }
}

/// Reads what a log entry says. Two shapes are understood: conversation
/// entries `{type: "assistant", timestamp, sessionId, message: {model,
/// usage}}` and plain entries `{timestamp, model, usage, session_id}`.
/// Unknown members are ignored.
pub fn read_log_fields(v: &JsonValue) -> (r: LogFields)
    ensures
        r == log_fields_of(*v),
{
    let is_conversation = match v.get("type") {
        Some(t) => match t.as_str() {
            Some(s) => str_eq(s, "assistant"),
            None => false,
        },
        None => false,
    } && v.get("message").is_some();
    let holder: &JsonValue = if is_conversation {
        match v.get("message") {
            Some(m) => m,
            None => v,
        }
    } else {
        v
    };
    let usage = match holder.get("usage") {
        Some(u) => Some(read_counts(u)),
        None => None,
    };
    let session_id = match v.get("sessionId") {
        Some(s) => match s.as_string() {
            Some(x) => Some(x.clone()),
            None => None,
        },
        None => string_member(v, "session_id"),
    };
    LogFields {
        timestamp: string_member(v, "timestamp"),
        model: string_member(holder, "model"),
        usage,
        session_id,
        project: string_member(v, "project"),
    }
}

/// Validation of a log entry, given the instant its timestamp parsed to
/// and the family its model id names: an entry is kept when it has a
/// timestamp, a model and usage, names a known family, counts some token,
/// and is not in the future.
pub open spec fn admit_spec(
    f: LogFields,
    timestamp: Option<Timestamp>,
    model: Option<ModelType>,
    now: Timestamp,
) -> Option<(Timestamp, ModelType, UsageCounts)> {
    match timestamp {
        None => None,
        Some(t) => if f.model is None || f.usage is None {
            None
        } else {
            match model {
                None => None,
                Some(m) => {
                    let c = f.usage->0;
                    if c.all_zero() {
                        None
                    } else if t.after(now) {
                        None
                    } else {
                        Some((t, m, c))
                    }
                },
            }
        },
    }
}

/// Decides whether a log entry is kept.
pub fn admit_log_entry(
    f: &LogFields,
    timestamp: Option<Timestamp>,
    model: Option<ModelType>,
    now: Timestamp,
) -> (r: Option<(Timestamp, ModelType, UsageCounts)>)
    ensures
        r == admit_spec(*f, timestamp, model, now),
{
    let t = match timestamp {
        None => return None,
        Some(t) => t,
    };
    if f.model.is_none() {
        return None;
    }
    let c = match &f.usage {
        None => return None,
        Some(c) => *c,
    };
    let m = match model {
        None => return None,
        Some(m) => m,
    };
    if c.input_tokens == 0 && c.output_tokens == 0 && c.cache_read_tokens == 0
        && c.cache_write_tokens == 0 {
        return None;
    }
    if t.is_after(&now) {
        return None;
    }
    Some((t, m, c))
}

/// The fixed namespace of log-derived identities.
pub const LOG_UUID_NAMESPACE: u128 = 0x6ba7b8109dad11d180b400c04fd430c8;

/// A name for `uuid::Uuid::new_v5`: the name-based (SHA-1) UUID of the
/// UTF-8 bytes of `name` in `namespace`, both UUIDs as big-endian integers.
pub uninterp spec fn spec_uuid_v5(namespace: u128, name: Seq<char>) -> u128;

/// Calls `uuid::Uuid::new_v5`. The contract names the result: the same
/// namespace and name always give the same UUID. Nothing is said of its
/// bits.
#[verifier::external_body]
fn uuid_v5(namespace: u128, name: &str) -> (r: u128)
    ensures
        r == spec_uuid_v5(namespace, name@),
{
    uuid::Uuid::new_v5(&uuid::Uuid::from_u128(namespace), name.as_bytes()).as_u128()
}

/// The name that identifies a log-derived record: milliseconds since the
/// epoch, model, input and output tokens, joined by ':'.
pub open spec fn log_uuid_name_spec(millis: int, model: ModelType, input: u64, output: u64) -> Seq<
    char,
> {
    signed_decimal(millis) + ":"@ + model.name() + ":"@ + decimal(input as nat) + ":"@ + decimal(
        output as nat,
    )
}

/// Builds the identifying name of a log-derived record.
pub fn log_uuid_name(timestamp: &Timestamp, model: &ModelType, input_tokens: u64, output_tokens: u64) -> (r:
    String)
    requires
        timestamp.wf(),
    ensures
        r@ == log_uuid_name_spec(timestamp.millis(), *model, input_tokens, output_tokens),
{
    let mut name = String::new();
    push_signed_decimal(&mut name, timestamp.timestamp_millis());
    name.append(":");
    name.append(model.as_str());
    name.append(":");
    push_decimal(&mut name, input_tokens);
    name.append(":");
    push_decimal(&mut name, output_tokens);
    assert(name@ =~= log_uuid_name_spec(timestamp.millis(), *model, input_tokens, output_tokens));
    name
}

/// Generate a deterministic UUID from log line data for deduplication:
/// the version-5 UUID of the record's identifying name in the fixed
/// namespace.
pub fn generate_log_uuid(timestamp: Timestamp, model: &ModelType, input_tokens: u64, output_tokens: u64) -> (r:
    u128)
    requires
        timestamp.wf(),
    ensures
        r == spec_uuid_v5(
            LOG_UUID_NAMESPACE,
            log_uuid_name_spec(timestamp.millis(), *model, input_tokens, output_tokens),
        ),
{
    let name = log_uuid_name(&timestamp, model, input_tokens, output_tokens);
    uuid_v5(LOG_UUID_NAMESPACE, name.as_str())
}

/// A usage record read from a log, before its cost is priced.
#[derive(Debug, Clone)]
pub struct LogUsage {
    pub uuid: u128,
    pub timestamp: Timestamp,
    pub model: ModelType,
    pub input_tokens: u64,
    pub output_tokens: u64,
    pub cache_read_tokens: u64,
    pub cache_write_tokens: u64,
    pub session_id: Option<String>,
    pub project: Option<String>,
}

/// A name for what `chrono::DateTime::parse_from_rfc3339` makes of a
/// string: the instant it denotes, if it is an RFC 3339 date-time.
pub uninterp spec fn rfc3339_instant(text: Seq<char>) -> Option<Timestamp>;

/// Calls `chrono::DateTime::parse_from_rfc3339` and reads the instant as
/// seconds and nanoseconds since the epoch. The contract names the result
/// and states the range of instants that chrono represents.
#[verifier::external_body]
fn parse_rfc3339(text: &str) -> (r: Option<Timestamp>)
    ensures
        r == rfc3339_instant(text@),
        r matches Some(t) ==> t.wf(),
{
    match chrono::DateTime::parse_from_rfc3339(text) {
        Ok(dt) => Some(Timestamp { secs: dt.timestamp(), nanos: dt.timestamp_subsec_nanos() }),
        Err(_) => None,
    }
}

/// The instant a log entry's timestamp string denotes.
pub open spec fn log_instant(f: LogFields) -> Option<Timestamp> {
    match f.timestamp {
        Some(s) => rfc3339_instant(s@),
        None => None,
    }
}

/// The family a log entry's model id names.
pub open spec fn log_model(f: LogFields) -> Option<ModelType> {
    match f.model {
        Some(s) => model_named(s@),
        None => None,
    }
}

/// The record read from log entry `v` at instant `now`, if it is kept.
pub open spec fn log_usage_spec(v: JsonValue, now: Timestamp, r: Option<LogUsage>) -> bool {
    let f = log_fields_of(v);
    match admit_spec(f, log_instant(f), log_model(f), now) {
        None => r is None,
        Some((t, m, c)) => match r {
            None => false,
            Some(u) => {
                &&& u.timestamp == t
                &&& u.model == m
                &&& u.input_tokens == c.input_tokens
                &&& u.output_tokens == c.output_tokens
                &&& u.cache_read_tokens == c.cache_read_tokens
                &&& u.cache_write_tokens == c.cache_write_tokens
                &&& u.uuid == spec_uuid_v5(
                    LOG_UUID_NAMESPACE,
                    log_uuid_name_spec(t.millis(), m, c.input_tokens, c.output_tokens),
                )
                &&& u.session_id == f.session_id
                &&& u.project == f.project
            },
        },
    }
}

/// Parse one JSON log entry into usage, if it contains usage data, as seen
/// at instant `now`.
pub fn parse_log_value_at(v: &JsonValue, now: Timestamp) -> (r: Option<LogUsage>)
    ensures
        log_usage_spec(*v, now, r),
{
    let f = read_log_fields(v);
    let timestamp = match &f.timestamp {
        Some(s) => parse_rfc3339(s.as_str()),
        None => None,
    };
    let model = match &f.model {
        Some(s) => match ModelType::parse_name(s.as_str()) {
            Ok(m) => Some(m),
            Err(_) => None,
        },
        None => None,
    };
    match admit_log_entry(&f, timestamp, model, now) {
        None => None,
        Some((t, m, c)) => {
            let uuid = generate_log_uuid(t, &m, c.input_tokens, c.output_tokens);
            Some(
                LogUsage {
                    uuid,
                    timestamp: t,
                    model: m,
                    input_tokens: c.input_tokens,
                    output_tokens: c.output_tokens,
                    cache_read_tokens: c.cache_read_tokens,
                    cache_write_tokens: c.cache_write_tokens,
                    session_id: f.session_id,
                    project: f.project,
                },
            )
        },
    }
}

/// A name for `str::trim` of std: the text with leading and trailing
/// Unicode whitespace removed.
pub uninterp spec fn spec_trim(s: Seq<char>) -> Seq<char>;

/// Whether `t` is `s` with some characters cut from its two ends.
pub open spec fn is_cut_from(t: Seq<char>, s: Seq<char>) -> bool {
    exists|i: int, j: int| 0 <= i <= j <= s.len() && t == s.subrange(i, j)
}

/// Calls `str::trim` of std. The contract names the result and states
/// what std's documentation gives: it is a part of the text, cut at both
/// ends. Which characters count as whitespace is left to std's Unicode
/// tables and is not stated.
#[verifier::external_body]
fn trim_text(s: &str) -> (r: &str)
    ensures
        r@ == spec_trim(s@),
        is_cut_from(r@, s@),
{
    s.trim()
}

/// The text of a log line without its surrounding whitespace, or `None`
/// for a blank line, which holds no entry.
pub fn log_line_text(line: &str) -> (r: Option<&str>)
    ensures
        is_cut_from(spec_trim(line@), line@),
        line@.len() == 0 ==> r is None,
        spec_trim(line@).len() == 0 ==> r is None,
        spec_trim(line@).len() > 0 ==> (r matches Some(t) && t@ == spec_trim(line@)),
{
    let t = trim_text(line);
    if t.unicode_len() == 0 {
        None
    } else {
        Some(t)
    }
}

/// Reads a log line's JSON document, as parsed or as refused by the JSON
/// parser with its message, at instant `now`: a refused document is a
/// log-parse error carrying the message, a parsed one gives its usage, if
/// it is kept.
pub fn parse_log_document(doc: Result<JsonValue, String>, now: Timestamp) -> (r: Result<Option<LogUsage>, CollectorError>)
    ensures
        match doc {
            Err(m) => r == Err::<Option<LogUsage>, CollectorError>(CollectorError::LogParse(m)),
            Ok(v) => r matches Ok(o) && log_usage_spec(v, now, o),
        },
{
    match doc {
        Err(m) => Err(CollectorError::LogParse(m)),
        Ok(v) => Ok(parse_log_value_at(&v, now)),
    }
}

/// Digits and signs carry no ':'.
proof fn lemma_numbers_have_no_colon(m: int, n: nat)
    ensures
        !has_char(signed_decimal(m), ':'),
        !has_char(decimal(n), ':'),
{
    lemma_decimal_digits(n);
    if m < 0 {
        lemma_decimal_digits((-m) as nat);
        assert forall|i: int| 0 <= i < signed_decimal(m).len() implies signed_decimal(m)[i] != ':' by {
            if i > 0 {
                assert(signed_decimal(m)[i] == decimal((-m) as nat)[i - 1]);
            }
        }
    } else {
        lemma_decimal_digits(m as nat);
    }
}

/// Model names carry no ':' and name one model each.
proof fn lemma_model_names(a: ModelType, b: ModelType)
    ensures
        !has_char(a.name(), ':'),
        a.name() == b.name() ==> a == b,
{
    reveal_strlit("Opus");
    reveal_strlit("Sonnet");
    reveal_strlit("Haiku");
    assert(!has_char("Opus"@, ':'));
    assert(!has_char("Sonnet"@, ':'));
    assert(!has_char("Haiku"@, ':'));
    if a.name() == b.name() && a != b {
        assert(a.name().len() != b.name().len() || a.name()[0] != b.name()[0]);
    }
}

/// Log-derived identities are told apart: two records get the same
/// identifying name only when they agree on milliseconds, model, input and
/// output tokens. So the UUID is a function of exactly these four, and
/// reading the same entry twice yields the same UUID.
#[verifier::rlimit(60)]
pub proof fn law_log_identity_name_injective(
    m1: int,
    model1: ModelType,
    in1: u64,
    out1: u64,
    m2: int,
    model2: ModelType,
    in2: u64,
    out2: u64,
)
    requires
        log_uuid_name_spec(m1, model1, in1, out1) == log_uuid_name_spec(m2, model2, in2, out2),
    ensures
        m1 == m2,
        model1 == model2,
        in1 == in2,
        out1 == out2,
{
    reveal_strlit(":");
    let c = seq![':'];
    let r1 = model1.name() + c + decimal(in1 as nat) + c + decimal(out1 as nat);
    let r2 = model2.name() + c + decimal(in2 as nat) + c + decimal(out2 as nat);
    assert(m1 == m2 && r1 == r2) by {
        lemma_numbers_have_no_colon(m1, 0);
        lemma_numbers_have_no_colon(m2, 0);
        assert(log_uuid_name_spec(m1, model1, in1, out1) =~= signed_decimal(m1) + c + r1);
        assert(log_uuid_name_spec(m2, model2, in2, out2) =~= signed_decimal(m2) + c + r2);
        lemma_split_at_separator(signed_decimal(m1), r1, signed_decimal(m2), r2, ':');
        lemma_signed_decimal_injective(m1, m2);
    }
    let q1 = decimal(in1 as nat) + c + decimal(out1 as nat);
    let q2 = decimal(in2 as nat) + c + decimal(out2 as nat);
    assert(model1 == model2 && q1 == q2) by {
        lemma_model_names(model1, model2);
        lemma_model_names(model2, model1);
        assert(r1 =~= model1.name() + c + q1);
        assert(r2 =~= model2.name() + c + q2);
        lemma_split_at_separator(model1.name(), q1, model2.name(), q2, ':');
    }
    assert(in1 == in2 && out1 == out2) by {
        lemma_numbers_have_no_colon(0, in1 as nat);
        lemma_numbers_have_no_colon(0, in2 as nat);
        lemma_split_at_separator(
            decimal(in1 as nat),
            decimal(out1 as nat),
            decimal(in2 as nat),
            decimal(out2 as nat),
            ':',
        );
        lemma_decimal_injective(in1 as nat, in2 as nat);
        lemma_decimal_injective(out1 as nat, out2 as nat);
    }
}

/// The identity of a kept log entry does not depend on when it is read:
/// parsing the same entry at two instants gives the same UUID whenever
/// both keep it, so re-reading a log never creates a second record.
pub proof fn law_log_identity_stable(v: JsonValue, now1: Timestamp, now2: Timestamp, r1: Option<LogUsage>, r2: Option<LogUsage>)
    requires
        log_usage_spec(v, now1, r1),
        log_usage_spec(v, now2, r2),
        r1 is Some,
        r2 is Some,
    ensures
        r1->0.uuid == r2->0.uuid,
        r1->0.timestamp == r2->0.timestamp,
        r1->0.model == r2->0.model,
{
}

/// An entry that is not rejected is kept, whatever family its model names:
/// with a model id and usage counting some token, stamped no later than
/// the reading instant, it is admitted with its own instant, family and
/// counts.
pub proof fn law_log_admission(f: LogFields, t: Timestamp, m: ModelType, c: UsageCounts, now: Timestamp)
    requires
        f.model is Some,
        f.usage == Some(c),
        c.input_tokens > 0 || c.output_tokens > 0 || c.cache_read_tokens > 0 || c.cache_write_tokens > 0,
        t.secs < now.secs || (t.secs == now.secs && t.nanos <= now.nanos),
    ensures
        admit_spec(f, Some(t), Some(m), now) == Some((t, m, c)),
{
}

/// Entries that count no token, or that are stamped later than the
/// reading instant, are never kept.
pub proof fn law_log_rejections(f: LogFields, t: Timestamp, m: ModelType, now: Timestamp)
    ensures
        f.usage matches Some(c) && c.all_zero() ==> admit_spec(f, Some(t), Some(m), now) is None,
        t.after(now) ==> admit_spec(f, Some(t), Some(m), now) is None,
        admit_spec(f, None, Some(m), now) is None,
        admit_spec(f, Some(t), None, now) is None,
{
}

} // verus!
