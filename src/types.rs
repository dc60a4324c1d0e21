use vstd::prelude::*;

verus! {

/// Model-usage payload as the API sends it.
#[derive(Debug, Clone)]
pub struct ModelUsageResponse {
    pub code: i64,
    pub msg: String,
    pub data: ModelUsageData,
    pub success: bool,
}

/// Time series of model calls and tokens, with their totals.
/// A `None` count means that the bucket has no data.
#[derive(Debug, Clone)]
pub struct ModelUsageData {
    pub x_time: Vec<String>,
    pub model_call_count: Vec<Option<i64>>,
    pub tokens_usage: Vec<Option<i64>>,
    pub total_usage: ModelTotalUsage,
}

/// Totals over the whole model-usage window.
#[derive(Debug, Clone, Copy, PartialEq, Eq)]
pub struct ModelTotalUsage {
    pub total_model_call_count: i64,
    pub total_tokens_usage: i64,
}

/// One row of the model-usage summary shown to the user.
#[derive(Debug, Clone, PartialEq, Eq)]
pub struct ModelUsageItem {
    pub model: String,
    pub token_count: i64,
    pub request_count: i64,
}

/// Tool-usage payload as the API sends it.
#[derive(Debug, Clone)]
pub struct ToolUsageResponse {
    pub code: i64,
    pub msg: String,
    pub data: ToolUsageData,
    pub success: bool,
}

/// Tool-usage data; fields of the payload besides `totalUsage` are accepted
/// and not kept.
#[derive(Debug, Clone)]
pub struct ToolUsageData {
    pub total_usage: TotalUsage,
}

/// Tool-usage counters and the per-tool details.
#[derive(Debug, Clone)]
pub struct TotalUsage {
    pub total_network_search_count: i64,
    pub total_web_read_mcp_count: i64,
    pub total_zread_mcp_count: i64,
    pub total_search_mcp_count: i64,
    pub tool_details: Vec<ToolDetail>,
}

/// One tool as the API reports it.
#[derive(Debug, Clone, PartialEq, Eq)]
pub struct ToolDetail {
    pub model_name: String,
    pub total_usage_count: i64,
}

/// One tool row shown to the user.
#[derive(Debug, Clone, PartialEq, Eq)]
pub struct ToolUsageItem {
    pub tool_name: String,
    pub usage_count: i64,
}

/// Quota-limit payload as the API sends it.
#[derive(Debug, Clone)]
pub struct QuotaLimitResponse {
    pub code: i64,
    pub msg: String,
    pub data: QuotaLimitData,
    pub success: bool,
}

#[derive(Debug, Clone)]
pub struct QuotaLimitData {
    pub limits: Vec<QuotaLimit>,
}

/// One quota limit. `percentage_hundredths` is the share consumed, in
/// hundredths of a percent (`8990` is 89.9%).
#[derive(Debug, Clone, PartialEq, Eq)]
pub struct QuotaLimit {
    pub type_field: String,
    pub unit: i64,
    pub number: i64,
    pub usage: Option<i64>,
    pub current_value: Option<i64>,
    pub remaining: Option<i64>,
    pub percentage_hundredths: i64,
    pub usage_details: Option<Vec<UsageDetail>>,
    pub next_reset_time: Option<i64>,
}

/// Per-tool consumption inside a quota limit.
#[derive(Debug, Clone, PartialEq, Eq)]
pub struct UsageDetail {
    pub tool_name: String,
    pub usage: i64,
}

/// One merged snapshot of all three usage calls.
#[derive(Debug, Clone, PartialEq, Eq)]
pub struct AllUsageData {
    pub model_usage: Vec<ModelUsageItem>,
    pub model_usage_timeseries: Option<ModelUsageTimeSeries>,
    pub tool_usage: Vec<ToolUsageItem>,
    pub quota_limits: Vec<QuotaLimit>,
    pub timestamp: i64,
}

/// Model-usage series for charts.
#[derive(Debug, Clone, PartialEq, Eq)]
pub struct ModelUsageTimeSeries {
    pub x_time: Vec<String>,
    pub model_call_count: Vec<Option<i64>>,
    pub tokens_usage: Vec<Option<i64>>,
}

/// Normalized model usage: summary rows and the series.
#[derive(Debug, Clone, PartialEq, Eq)]
pub struct ModelUsageResult {
    pub items: Vec<ModelUsageItem>,
    pub timeseries: Option<ModelUsageTimeSeries>,
}

/// User settings.
#[derive(Debug, Clone, PartialEq, Eq)]
pub struct Config {
    pub auth_token: String,
    pub base_url: String,
    pub refresh_interval_minutes: u64,
}

/// Base URL used until the user saves another one.
pub const DEFAULT_BASE_URL: &'static str = "https://api.z.ai/api/anthropic";

/// Minutes between polls until the user saves another interval.
pub const DEFAULT_REFRESH_MINUTES: u64 = 5;

impl Default for Config {
    /// Empty token, the default base URL, a five-minute interval.
    fn default() -> (r: Config)
        ensures
            r.auth_token@.len() == 0,
            r.base_url@ == DEFAULT_BASE_URL@,
            r.refresh_interval_minutes == DEFAULT_REFRESH_MINUTES,
    {
        Config {
            auth_token: String::new(),
            base_url: String::from_str(DEFAULT_BASE_URL),
            refresh_interval_minutes: DEFAULT_REFRESH_MINUTES,
        }
    }
}

} // verus!
