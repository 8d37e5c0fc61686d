//! The SQL the daemon's storage issues for filtered reads: which filters
//! become which conditions, in which order, with which bound values.

use vstd::prelude::*;
use vstd::string::*;
use crate::models::{ModelType, SessionStatus};

verus! {

/// A value bound to a '?' placeholder.
#[derive(Debug, Clone, PartialEq, Eq)]
pub enum SqlParam {
    Text(String),
    Integer(i64),
}

/// A statement and the values for its placeholders, in order.
#[derive(Debug, Clone)]
pub struct SqlStatement {
    pub sql: String,
    pub params: Vec<SqlParam>,
}

/// Conditions joined by " AND ".
pub open spec fn join_and(cs: Seq<Seq<char>>) -> Seq<char>
    decreases cs.len(),
{
    if cs.len() == 0 {
        Seq::empty()
    } else if cs.len() == 1 {
        cs[0]
    } else {
        join_and(cs.drop_last()) + " AND "@ + cs.last()
    }
}

/// The WHERE part of a statement: nothing without conditions.
pub open spec fn where_sql(cs: Seq<Seq<char>>) -> Seq<char> {
    if cs.len() == 0 {
        Seq::empty()
    } else {
        "WHERE "@ + join_and(cs)
    }
}

/// Builds the WHERE part of a statement from its conditions.
pub fn where_clause(conditions: &Vec<&str>) -> (r: String)
    ensures
        r@ == where_sql(conditions@.map_values(|c: &str| c@)),
{
    let ghost cs = conditions@.map_values(|c: &str| c@);
    if conditions.len() == 0 {
        return String::new();
    }
    let mut out = String::from_str("WHERE ");
    out.append(conditions[0]);
    let mut i: usize = 1;
    assert(cs.subrange(0, 1).len() == 1);
    assert(join_and(cs.subrange(0, 1)) == cs[0]);
    while i < conditions.len()
        invariant
            1 <= i <= conditions@.len(),
            cs == conditions@.map_values(|c: &str| c@),
            out@ == "WHERE "@ + join_and(cs.subrange(0, i as int)),
        decreases conditions.len() - i,
    {
        out.append(" AND ");
        out.append(conditions[i]);
        assert(cs.subrange(0, i + 1).drop_last() =~= cs.subrange(0, i as int));
        i = i + 1;
        assert(out@ =~= "WHERE "@ + join_and(cs.subrange(0, i as int)));
    }
    assert(cs.subrange(0, i as int) =~= cs);
    out
}

/// The conditions of a usage filter: a time range bounds the timestamp on
/// both sides, then the model, then the project.
pub open spec fn usage_conditions(has_range: bool, has_model: bool, has_project: bool) -> Seq<Seq<char>> {
    (if has_range { seq!["timestamp >= ?"@, "timestamp <= ?"@] } else { Seq::empty() })
        + (if has_model { seq!["model = ?"@] } else { Seq::empty() })
        + (if has_project { seq!["project = ?"@] } else { Seq::empty() })
}

/// The values bound by a usage filter, in the order of its conditions.
pub open spec fn usage_binds(range: Option<(Seq<char>, Seq<char>)>, model: Option<ModelType>, project: Option<Seq<char>>) -> Seq<Seq<char>> {
    (match range {
        Some((a, b)) => seq![a, b],
        None => Seq::empty(),
    }) + (match model {
        Some(m) => seq![m.stored_name()],
        None => Seq::empty(),
    }) + (match project {
        Some(p) => seq![p],
        None => Seq::empty(),
    })
}

/// The text values of a list of bound parameters.
pub open spec fn texts(ps: Seq<SqlParam>) -> Seq<Seq<char>> {
    ps.map_values(|p: SqlParam| match p {
        SqlParam::Text(s) => s@,
        SqlParam::Integer(_) => Seq::empty(),
    })
}

/// Whether every parameter is a text value.
pub open spec fn all_text(ps: Seq<SqlParam>) -> bool {
    forall|i: int| 0 <= i < ps.len() ==> ps[i] is Text
}

/// The filter of a usage read: `range` holds the RFC 3339 renderings of
/// the range's ends.
pub fn usage_filter(range: Option<(&str, &str)>, model: Option<ModelType>, project: Option<&str>) -> (r: (String, Vec<SqlParam>))
    ensures
        r.0@ == where_sql(usage_conditions(range is Some, model is Some, project is Some)),
        all_text(r.1@),
        texts(r.1@) == usage_binds(
            match range {
                Some((a, b)) => Some((a@, b@)),
                None => None,
            },
            model,
            match project {
                Some(p) => Some(p@),
                None => None,
            },
        ),
{
    let mut conditions: Vec<&str> = Vec::new();
    let mut binds: Vec<SqlParam> = Vec::new();
    match range {
        Some((a, b)) => {
            conditions.push("timestamp >= ?");
            binds.push(SqlParam::Text(String::from_str(a)));
            conditions.push("timestamp <= ?");
            binds.push(SqlParam::Text(String::from_str(b)));
        },
        None => {},
    }
    match model {
        Some(m) => {
            conditions.push("model = ?");
            binds.push(SqlParam::Text(String::from_str(m.as_stored_str())));
        },
        None => {},
    }
    match project {
        Some(p) => {
            conditions.push("project = ?");
            binds.push(SqlParam::Text(String::from_str(p)));
        },
        None => {},
    }
    let w = where_clause(&conditions);
    proof {
        assert(conditions@.map_values(|c: &str| c@) =~= usage_conditions(
            range is Some,
            model is Some,
            project is Some,
        ));
        assert(texts(binds@) =~= usage_binds(
            match range {
                Some((a, b)) => Some((a@, b@)),
                None => None,
            },
            model,
            match project {
                Some(p) => Some(p@),
                None => None,
            },
        ));
    }
    (w, binds)
}

/// The filter of a session list: by status, if one is asked for.
pub fn session_filter(status: Option<SessionStatus>) -> (r: (String, Vec<SqlParam>))
    ensures
        r.0@ == where_sql(if status is Some { seq!["status = ?"@] } else { Seq::empty() }),
        all_text(r.1@),
        texts(r.1@) == (match status {
            Some(s) => seq![s.stored_name()],
            None => Seq::empty(),
        }),
{
    let mut conditions: Vec<&str> = Vec::new();
    let mut binds: Vec<SqlParam> = Vec::new();
    match status {
        Some(s) => {
            conditions.push("status = ?");
            binds.push(SqlParam::Text(String::from_str(s.as_stored_str())));
        },
        None => {},
    }
    let w = where_clause(&conditions);
    proof {
        assert(conditions@.map_values(|c: &str| c@) =~= (if status is Some {
            seq!["status = ?"@]
        } else {
            Seq::empty()
        }));
        assert(texts(binds@) =~= (match status {
            Some(s) => seq![s.stored_name()],
            None => Seq::empty(),
        }));
    }
    (w, binds)
}

/// The usage columns, in the order rows are decoded.
pub open spec fn usage_columns() -> Seq<char> {
    "id, uuid, timestamp, model, input_tokens, output_tokens, cache_read_tokens, cache_write_tokens, cost_usd, session_id, project, source"@
}

/// The session columns, in the order rows are decoded.
pub open spec fn session_columns() -> Seq<char> {
    "session_id, model, started_at, last_activity, total_input_tokens, total_output_tokens, total_cache_read_tokens, total_cache_write_tokens, cost_usd, request_count, status, project"@
}

/// Counts the usage records a filter selects.
pub fn usage_count_statement(filter: (String, Vec<SqlParam>)) -> (r: SqlStatement)
    ensures
        r.sql@ == "SELECT COUNT(*) FROM usage_records "@ + filter.0@,
        r.params == filter.1,
{
    let mut sql = String::from_str("SELECT COUNT(*) FROM usage_records ");
    sql.append(filter.0.as_str());
    SqlStatement { sql, params: filter.1 }
}

/// One page of the usage records a filter selects, newest first.
pub fn usage_page_statement(filter: (String, Vec<SqlParam>), limit: u32, offset: u32) -> (r: SqlStatement)
    ensures
        r.sql@ == "SELECT "@ + usage_columns() + " FROM usage_records "@ + filter.0@
            + " ORDER BY timestamp DESC LIMIT ? OFFSET ?"@,
        r.params@ == filter.1@.push(SqlParam::Integer(limit as i64)).push(SqlParam::Integer(offset as i64)),
{
    let mut sql = String::from_str("SELECT ");
    sql.append("id, uuid, timestamp, model, input_tokens, output_tokens, cache_read_tokens, cache_write_tokens, cost_usd, session_id, project, source");
    sql.append(" FROM usage_records ");
    sql.append(filter.0.as_str());
    sql.append(" ORDER BY timestamp DESC LIMIT ? OFFSET ?");
    let mut params = filter.1;
    params.push(SqlParam::Integer(limit as i64));
    params.push(SqlParam::Integer(offset as i64));
    assert(sql@ =~= "SELECT "@ + usage_columns() + " FROM usage_records "@ + filter.0@
        + " ORDER BY timestamp DESC LIMIT ? OFFSET ?"@);
    SqlStatement { sql, params }
}

/// Daily totals per model of the usage records a filter selects, oldest
/// day first.
pub fn summary_statement(filter: (String, Vec<SqlParam>)) -> (r: SqlStatement)
    ensures
        r.sql@ == "SELECT DATE(timestamp) as date, model, SUM(input_tokens) as total_input, SUM(output_tokens) as total_output, SUM(cache_read_tokens) as total_cache_read, SUM(cache_write_tokens) as total_cache_write, SUM(cost_usd) as total_cost, COUNT(*) as req_count, COUNT(DISTINCT session_id) as sess_count FROM usage_records "@
            + filter.0@ + " GROUP BY date, model ORDER BY date ASC"@,
        r.params == filter.1,
{
    let mut sql = String::from_str(
        "SELECT DATE(timestamp) as date, model, SUM(input_tokens) as total_input, SUM(output_tokens) as total_output, SUM(cache_read_tokens) as total_cache_read, SUM(cache_write_tokens) as total_cache_write, SUM(cost_usd) as total_cost, COUNT(*) as req_count, COUNT(DISTINCT session_id) as sess_count FROM usage_records ",
    );
    sql.append(filter.0.as_str());
    sql.append(" GROUP BY date, model ORDER BY date ASC");
    SqlStatement { sql, params: filter.1 }
}

/// Totals per model of the usage records a filter selects.
pub fn model_stats_statement(filter: (String, Vec<SqlParam>)) -> (r: SqlStatement)
    ensures
        r.sql@ == "SELECT model, SUM(input_tokens) as total_input, SUM(output_tokens) as total_output, SUM(cost_usd) as total_cost, COUNT(*) as req_count FROM usage_records "@
            + filter.0@ + " GROUP BY model"@,
        r.params == filter.1,
{
    let mut sql = String::from_str(
        "SELECT model, SUM(input_tokens) as total_input, SUM(output_tokens) as total_output, SUM(cost_usd) as total_cost, COUNT(*) as req_count FROM usage_records ",
    );
    sql.append(filter.0.as_str());
    sql.append(" GROUP BY model");
    SqlStatement { sql, params: filter.1 }
}

/// Counts the sessions a filter selects.
pub fn session_count_statement(filter: (String, Vec<SqlParam>)) -> (r: SqlStatement)
    ensures
        r.sql@ == "SELECT COUNT(*) FROM sessions "@ + filter.0@,
        r.params == filter.1,
{
    let mut sql = String::from_str("SELECT COUNT(*) FROM sessions ");
    sql.append(filter.0.as_str());
    SqlStatement { sql, params: filter.1 }
}

/// One page of the sessions a filter selects, most recently active first.
pub fn session_page_statement(filter: (String, Vec<SqlParam>), limit: u32, offset: u32) -> (r: SqlStatement)
    ensures
        r.sql@ == "SELECT "@ + session_columns() + " FROM sessions "@ + filter.0@
            + " ORDER BY last_activity DESC LIMIT ? OFFSET ?"@,
        r.params@ == filter.1@.push(SqlParam::Integer(limit as i64)).push(SqlParam::Integer(offset as i64)),
{
    let mut sql = String::from_str("SELECT ");
    sql.append("session_id, model, started_at, last_activity, total_input_tokens, total_output_tokens, total_cache_read_tokens, total_cache_write_tokens, cost_usd, request_count, status, project");
    sql.append(" FROM sessions ");
    sql.append(filter.0.as_str());
    sql.append(" ORDER BY last_activity DESC LIMIT ? OFFSET ?");
    let mut params = filter.1;
    params.push(SqlParam::Integer(limit as i64));
    params.push(SqlParam::Integer(offset as i64));
    assert(sql@ =~= "SELECT "@ + session_columns() + " FROM sessions "@ + filter.0@
        + " ORDER BY last_activity DESC LIMIT ? OFFSET ?"@);
    SqlStatement { sql, params }
}

/// Stored daily aggregates between two dates (rendered as YYYY-MM-DD),
/// optionally of one model, oldest first.
pub fn daily_aggregates_statement(start: &str, end: &str, model: Option<ModelType>) -> (r: SqlStatement)
    ensures
        r.sql@ == "SELECT date, model, total_input_tokens, total_output_tokens, total_cache_read_tokens, total_cache_write_tokens, total_cost_usd, request_count, session_count FROM daily_aggregates WHERE date >= ? AND date <= ?"@
            + (if model is Some { " AND model = ?"@ } else { Seq::empty() }) + " ORDER BY date ASC"@,
        all_text(r.params@),
        texts(r.params@) == seq![start@, end@] + (match model {
            Some(m) => seq![m.stored_name()],
            None => Seq::empty(),
        }),
{
    let mut sql = String::from_str(
        "SELECT date, model, total_input_tokens, total_output_tokens, total_cache_read_tokens, total_cache_write_tokens, total_cost_usd, request_count, session_count FROM daily_aggregates WHERE date >= ? AND date <= ?",
    );
    let mut params: Vec<SqlParam> = Vec::new();
    params.push(SqlParam::Text(String::from_str(start)));
    params.push(SqlParam::Text(String::from_str(end)));
    match model {
        Some(m) => {
            sql.append(" AND model = ?");
            params.push(SqlParam::Text(String::from_str(m.as_stored_str())));
        },
        None => {},
    }
    sql.append(" ORDER BY date ASC");
    proof {
        assert(sql@ =~= "SELECT date, model, total_input_tokens, total_output_tokens, total_cache_read_tokens, total_cache_write_tokens, total_cost_usd, request_count, session_count FROM daily_aggregates WHERE date >= ? AND date <= ?"@
            + (if model is Some { " AND model = ?"@ } else { Seq::empty() }) + " ORDER BY date ASC"@);
        assert(texts(params@) =~= seq![start@, end@] + (match model {
            Some(m) => seq![m.stored_name()],
            None => Seq::empty(),
        }));
    }
    SqlStatement { sql, params }
}

/// The sum of a sequence of counts.
pub open spec fn count_sum(s: Seq<u64>) -> int
    decreases s.len(),
{
    if s.len() == 0 {
        0
    } else {
        count_sum(s.drop_last()) + s.last()
    }
}

proof fn lemma_count_sum_prefix(s: Seq<u64>, k: int)
    requires
        0 <= k <= s.len(),
    ensures
        0 <= count_sum(s.subrange(0, k)) <= count_sum(s),
    decreases s.len(),
{
    if k == s.len() {
        assert(s.subrange(0, k) =~= s);
        lemma_count_sum_nonneg(s);
    } else {
        lemma_count_sum_prefix(s.drop_last(), k);
        assert(s.drop_last().subrange(0, k) =~= s.subrange(0, k));
    }
}

proof fn lemma_count_sum_nonneg(s: Seq<u64>)
    ensures
        count_sum(s) >= 0,
    decreases s.len(),
{
    if s.len() > 0 {
        lemma_count_sum_nonneg(s.drop_last());
    }
}

/// The total of a column is its ordinary sum: an empty column totals
/// zero, one more count adds that count, a one-count column totals its
/// count, and totals add over joined columns.
pub proof fn law_total_is_sum(a: Seq<u64>, b: Seq<u64>, x: u64)
    ensures
        count_sum(Seq::<u64>::empty()) == 0,
        count_sum(a.push(x)) == count_sum(a) + x,
        count_sum(seq![x]) == x,
        count_sum(a + b) == count_sum(a) + count_sum(b),
    decreases b.len(),
{
    assert(a.push(x).drop_last() =~= a);
    assert(seq![x].drop_last() =~= Seq::<u64>::empty());
    if b.len() == 0 {
        assert(a + b =~= a);
    } else {
        law_total_is_sum(a, b.drop_last(), x);
        assert((a + b).drop_last() =~= a + b.drop_last());
        assert((a + b).last() == b.last());
    }
}

/// Totals a column of counts, as a usage summary totals its aggregates'
/// input tokens, output tokens and requests.
pub fn total_count(values: &[u64]) -> (r: u64)
    requires
        count_sum(values@) <= u64::MAX,
    ensures
        r == count_sum(values@),
{
    let mut total: u64 = 0;
    let mut i: usize = 0;
    while i < values.len()
        invariant
            i <= values@.len(),
            count_sum(values@) <= u64::MAX,
            total == count_sum(values@.subrange(0, i as int)),
        decreases values.len() - i,
    {
        proof {
            lemma_count_sum_prefix(values@, i + 1);
            assert(values@.subrange(0, i + 1).drop_last() =~= values@.subrange(0, i as int));
        }
        total = total + values[i];
        i = i + 1;
    }
    assert(values@.subrange(0, values@.len() as int) =~= values@);
    total
}

} // verus!
