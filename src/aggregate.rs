use vstd::prelude::*;
use crate::client::FetchError;
use crate::types::{AllUsageData, ModelUsageResult, QuotaLimit, ToolUsageItem};

verus! {

/// Consumption, in hundredths of a percent, from which an alert is critical.
pub const CRITICAL_HUNDREDTHS: i64 = 9000;
/// Consumption, in hundredths of a percent, from which an alert is a warning.
pub const WARNING_HUNDREDTHS: i64 = 7000;

pub const WARNING_TEXT: &'static str = "warning";
pub const CRITICAL_TEXT: &'static str = "critical";

#[derive(Debug, Clone, Copy, PartialEq, Eq, Structural)]
pub enum AlertSeverity {
    Warning,
    Critical,
}

impl AlertSeverity {
    /// The severity as the UI names it.
    pub fn as_str(&self) -> (r: &'static str)
        ensures
            r@ == (match *self {
                AlertSeverity::Warning => WARNING_TEXT@,
                AlertSeverity::Critical => CRITICAL_TEXT@,
            }),
    {
        match self {
            AlertSeverity::Warning => WARNING_TEXT,
            AlertSeverity::Critical => CRITICAL_TEXT,
        }
    }
}

/// A quota limit that crossed a threshold.
#[derive(Debug, Clone, PartialEq, Eq)]
pub struct UsageAlert {
    pub type_label: String,
    pub percentage_hundredths: i64,
    pub severity: AlertSeverity,
}

/// The alert level of a consumption: critical from 90%, a warning from 70%,
/// none below; both bounds inclusive.
pub open spec fn severity_of(hundredths: int) -> Option<AlertSeverity> {
    if hundredths >= CRITICAL_HUNDREDTHS {
        Some(AlertSeverity::Critical)
    } else if hundredths >= WARNING_HUNDREDTHS {
        Some(AlertSeverity::Warning)
    } else {
        None
    }
}

/// The alerts due for `limits`: label, consumption and level of each limit
/// at or over a threshold, in the order of the limits.
pub open spec fn expected_alerts(limits: Seq<QuotaLimit>) -> Seq<(Seq<char>, i64, AlertSeverity)>
    decreases limits.len(),
{
    if limits.len() == 0 {
        seq![]
    } else {
        let last = limits.last();
        let earlier = expected_alerts(limits.drop_last());
        match severity_of(last.percentage_hundredths as int) {
            Some(s) => earlier.push((last.type_field@, last.percentage_hundredths, s)),
            None => earlier,
        }
    }
}

pub open spec fn alert_view(a: UsageAlert) -> (Seq<char>, i64, AlertSeverity) {
    (a.type_label@, a.percentage_hundredths, a.severity)
}

/// The alert level for one consumption.
pub fn evaluate_threshold(percentage_hundredths: i64) -> (r: Option<AlertSeverity>)
    ensures
        r == severity_of(percentage_hundredths as int),
{
    if percentage_hundredths >= CRITICAL_HUNDREDTHS {
        Some(AlertSeverity::Critical)
    } else if percentage_hundredths >= WARNING_HUNDREDTHS {
        Some(AlertSeverity::Warning)
    } else {
        None
    }
}

/// One alert per limit at or over a threshold, in order.
pub fn usage_alerts(limits: &Vec<QuotaLimit>) -> (r: Vec<UsageAlert>)
    ensures
        r@.map_values(|a: UsageAlert| alert_view(a)) == expected_alerts(limits@),
{
    let mut alerts: Vec<UsageAlert> = Vec::new();
    let mut i: usize = 0;
    while i < limits.len()
        invariant
            i <= limits@.len(),
            alerts@.map_values(|a: UsageAlert| alert_view(a)) == expected_alerts(limits@.subrange(0, i as int)),
        decreases limits@.len() - i,
    {
        let limit = &limits[i];
        let ghost before = alerts@;
        assert(limits@.subrange(0, i as int + 1).drop_last() == limits@.subrange(0, i as int));
        match evaluate_threshold(limit.percentage_hundredths) {
            Some(severity) => {
                alerts.push(
                    UsageAlert {
                        type_label: limit.type_field.clone(),
                        percentage_hundredths: limit.percentage_hundredths,
                        severity,
                    },
                );
                assert(alerts@.map_values(|a: UsageAlert| alert_view(a)) =~= before.map_values(
                    |a: UsageAlert| alert_view(a),
                ).push(alert_view(alerts@.last())));
            },
            None => {},
        }
        i = i + 1;
    }
    assert(limits@.subrange(0, limits@.len() as int) == limits@);
    alerts
}

/// `cur` with the failure `e`, which arrived as number `at`, taken in when
/// it arrived earlier (or `cur` holds none).
pub open spec fn take_earlier(cur: Option<(u64, FetchError)>, at: u64, e: FetchError) -> Option<(u64, FetchError)> {
    match cur {
        Some(c) => if at < c.0 { Some((at, e)) } else { cur },
        None => Some((at, e)),
    }
}

pub open spec fn take_failure<T>(cur: Option<(u64, FetchError)>, r: Result<T, FetchError>, at: u64) -> Option<(u64, FetchError)> {
    match r {
        Err(e) => take_earlier(cur, at, e),
        Ok(_) => cur,
    }
}

/// The failed call that arrived first, with its arrival number; equal
/// numbers go to model usage, then tool usage, then quota limits.
pub open spec fn first_failure(
    model: Result<ModelUsageResult, FetchError>,
    tool: Result<Vec<ToolUsageItem>, FetchError>,
    quota: Result<Vec<QuotaLimit>, FetchError>,
    model_at: u64,
    tool_at: u64,
    quota_at: u64,
) -> Option<(u64, FetchError)> {
    take_failure(take_failure(take_failure(None, model, model_at), tool, tool_at), quota, quota_at)
}

/// The snapshot of one poll: all three results when every call succeeded,
/// else the failure that arrived first (`*_at` number the arrivals).
pub open spec fn merged_snapshot(
    model: Result<ModelUsageResult, FetchError>,
    tool: Result<Vec<ToolUsageItem>, FetchError>,
    quota: Result<Vec<QuotaLimit>, FetchError>,
    model_at: u64,
    tool_at: u64,
    quota_at: u64,
    timestamp: i64,
) -> Result<AllUsageData, FetchError> {
    match (model, tool, quota) {
        (Ok(m), Ok(t), Ok(q)) => Ok(
            AllUsageData {
                model_usage: m.items,
                model_usage_timeseries: m.timeseries,
                tool_usage: t,
                quota_limits: q,
                timestamp,
            },
        ),
        _ => Err(first_failure(model, tool, quota, model_at, tool_at, quota_at).unwrap().1),
    }
}

fn keep_earlier(cur: Option<(u64, FetchError)>, at: u64, e: FetchError) -> (r: Option<(u64, FetchError)>)
    ensures
        r == take_earlier(cur, at, e),
{
    match cur {
        Some(c) => if at < c.0 {
            Some((at, e))
        } else {
            Some(c)
        },
        None => Some((at, e)),
    }
}

/// The stored snapshot after a poll: replaced on success, kept on failure.
pub open spec fn snapshot_after(last: Option<AllUsageData>, merged: Result<AllUsageData, FetchError>) -> Option<AllUsageData> {
    match merged {
        Ok(d) => Some(d),
        Err(_) => last,
    }
}

/// Joins the three call results into one snapshot stamped `timestamp`.
/// `model_at`, `tool_at` and `quota_at` number the calls in the order they
/// finished; when any call failed the poll fails with the failure that
/// finished first, and no partial snapshot is made.
pub fn merge_usage(
    model: Result<ModelUsageResult, FetchError>,
    tool: Result<Vec<ToolUsageItem>, FetchError>,
    quota: Result<Vec<QuotaLimit>, FetchError>,
    model_at: u64,
    tool_at: u64,
    quota_at: u64,
    timestamp: i64,
) -> (r: Result<AllUsageData, FetchError>)
    ensures
        r == merged_snapshot(model, tool, quota, model_at, tool_at, quota_at, timestamp),
{
    let ghost (model0, tool0, quota0) = (model, tool, quota);
    let mut first: Option<(u64, FetchError)> = None;
    let m = match model {
        Ok(m) => Some(m),
        Err(e) => {
            first = keep_earlier(first, model_at, e);
            None
        },
    };
    let t = match tool {
        Ok(t) => Some(t),
        Err(e) => {
            first = keep_earlier(first, tool_at, e);
            None
        },
    };
    let q = match quota {
        Ok(q) => Some(q),
        Err(e) => {
            first = keep_earlier(first, quota_at, e);
            None
        },
    };
    assert(first == first_failure(model0, tool0, quota0, model_at, tool_at, quota_at));
    match first {
        Some(f) => Err(f.1),
        None => {
            let m = m.unwrap();
            let t = t.unwrap();
            let q = q.unwrap();
            Ok(
                AllUsageData {
                    model_usage: m.items,
                    model_usage_timeseries: m.timeseries,
                    tool_usage: t,
                    quota_limits: q,
                    timestamp,
                },
            )
        },
    }
}

/// Stores a successful snapshot in `last` and returns its alerts; a failure
/// leaves `last` as it was and is returned.
pub fn record_snapshot(last: &mut Option<AllUsageData>, merged: Result<AllUsageData, FetchError>) -> (r: Result<
    Vec<UsageAlert>,
    FetchError,
>)
    ensures
        *final(last) == snapshot_after(*old(last), merged),
        match merged {
            Ok(d) => r matches Ok(alerts) && alerts@.map_values(|a: UsageAlert| alert_view(a))
                == expected_alerts(d.quota_limits@),
            Err(e) => r == Err::<Vec<UsageAlert>, FetchError>(e),
        },
{
    match merged {
        Ok(data) => {
            let alerts = usage_alerts(&data.quota_limits);
            *last = Some(data);
            Ok(alerts)
        },
        Err(e) => Err(e),
    }
}

/// A poll whose quota call failed, while both other calls succeeded, yields
/// that failure alone and leaves the stored snapshot as it was.
pub proof fn lemma_failed_call_keeps_snapshot(
    model: ModelUsageResult,
    tool: Vec<ToolUsageItem>,
    error: FetchError,
    model_at: u64,
    tool_at: u64,
    quota_at: u64,
    timestamp: i64,
    last: Option<AllUsageData>,
)
    ensures
        merged_snapshot(Ok(model), Ok(tool), Err(error), model_at, tool_at, quota_at, timestamp)
            == Err::<AllUsageData, FetchError>(error),
        snapshot_after(last, merged_snapshot(Ok(model), Ok(tool), Err(error), model_at, tool_at, quota_at, timestamp))
            == last,
{
}

/// Any failed call fails the poll, and a failed poll replaces nothing.
pub proof fn lemma_any_failure_fails_poll(
    model: Result<ModelUsageResult, FetchError>,
    tool: Result<Vec<ToolUsageItem>, FetchError>,
    quota: Result<Vec<QuotaLimit>, FetchError>,
    model_at: u64,
    tool_at: u64,
    quota_at: u64,
    timestamp: i64,
    last: Option<AllUsageData>,
)
    requires
        model is Err || tool is Err || quota is Err,
    ensures
        merged_snapshot(model, tool, quota, model_at, tool_at, quota_at, timestamp) is Err,
        snapshot_after(last, merged_snapshot(model, tool, quota, model_at, tool_at, quota_at, timestamp)) == last,
{
}

/// Threshold levels: below 70% no alert, from 70% up to below 90% a
/// warning, from 90% critical.
pub proof fn lemma_threshold_bounds(hundredths: int)
    ensures
        hundredths < 7000 ==> severity_of(hundredths) is None,
        7000 <= hundredths < 9000 ==> severity_of(hundredths) == Some(AlertSeverity::Warning),
        hundredths >= 9000 ==> severity_of(hundredths) == Some(AlertSeverity::Critical),
{
}

} // verus!
