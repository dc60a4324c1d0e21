use vstd::prelude::*;
use crate::text::{decimal, has_infix, render_decimal, str_contains};
use crate::types::{
    Config, ModelUsageData, ModelUsageItem, ModelUsageResponse, ModelUsageResult,
    ModelUsageTimeSeries, QuotaLimit, QuotaLimitResponse, ToolUsageItem, ToolUsageResponse,
};
use crate::window::TimeWindow;

verus! {

/// Fragment of the international API's host.
pub const ZAI_FRAGMENT: &'static str = "api.z.ai";
/// Fragment of the mainland production host.
pub const BIGMODEL_FRAGMENT: &'static str = "open.bigmodel.cn";
/// Fragment of the mainland development host.
pub const BIGMODEL_DEV_FRAGMENT: &'static str = "dev.bigmodel.cn";
/// Canonical domain for URLs on the international API.
pub const ZAI_DOMAIN: &'static str = "https://api.z.ai";
/// Canonical domain for URLs on either mainland host.
pub const BIGMODEL_DOMAIN: &'static str = "https://open.bigmodel.cn";

pub const MODEL_USAGE_PATH: &'static str = "/api/monitor/usage/model-usage";
pub const TOOL_USAGE_PATH: &'static str = "/api/monitor/usage/tool-usage";
pub const QUOTA_LIMIT_PATH: &'static str = "/api/monitor/usage/quota/limit";

pub const START_TIME_PARAM: &'static str = "startTime";
pub const END_TIME_PARAM: &'static str = "endTime";
pub const AUTHORIZATION_HEADER: &'static str = "Authorization";
pub const ACCEPT_LANGUAGE_HEADER: &'static str = "Accept-Language";
pub const ACCEPT_LANGUAGE_VALUE: &'static str = "en-US,en";
pub const CONTENT_TYPE_HEADER: &'static str = "Content-Type";
pub const CONTENT_TYPE_VALUE: &'static str = "application/json";

/// Label of the single model-usage summary row.
pub const ALL_MODELS: &'static str = "All Models";

/// API code of the rolling token budget, and the label shown for it.
pub const TOKENS_LIMIT_CODE: &'static str = "TOKENS_LIMIT";
pub const TOKENS_LIMIT_LABEL: &'static str = "Token usage (5 Hour)";
/// API code of the monthly tool budget, and the label shown for it.
pub const TIME_LIMIT_CODE: &'static str = "TIME_LIMIT";
pub const TIME_LIMIT_LABEL: &'static str = "MCP usage (1 Month)";

pub const UNRECOGNIZED_PREFIX: &'static str = "Unrecognized base URL: ";
pub const TRANSPORT_PREFIX: &'static str = "Request failed: ";
pub const HTTP_PREFIX: &'static str = "HTTP ";
pub const SEPARATOR: &'static str = ": ";
pub const SCHEMA_PREFIX: &'static str = "Parse error: ";
pub const SCHEMA_BODY_SEPARATOR: &'static str = " - Response was: ";

/// Why one usage call failed.
#[derive(Debug, Clone, PartialEq, Eq)]
pub enum FetchError {
    /// The configured base URL names no known API host.
    UnrecognizedEndpoint { url: String },
    /// The request could not be sent or its body not read.
    Transport { cause: String },
    /// The server answered with a status other than 200.
    HttpStatus { status: u16, body: String },
    /// The body did not have the expected shape.
    Schema { cause: String, raw_body: String },
}

/// The canonical domain for a configured base URL, if it names a known host.
pub open spec fn resolve_domain(url: Seq<char>) -> Option<Seq<char>> {
    if has_infix(url, ZAI_FRAGMENT@) {
        Some(ZAI_DOMAIN@)
    } else if has_infix(url, BIGMODEL_FRAGMENT@) || has_infix(url, BIGMODEL_DEV_FRAGMENT@) {
        Some(BIGMODEL_DOMAIN@)
    } else {
        None
    }
}

/// The label shown for a quota-limit type code.
pub open spec fn relabeled(code: Seq<char>) -> Seq<char> {
    if code == TOKENS_LIMIT_CODE@ {
        TOKENS_LIMIT_LABEL@
    } else if code == TIME_LIMIT_CODE@ {
        TIME_LIMIT_LABEL@
    } else {
        code
    }
}

/// `b` is `a` with at most its type label changed.
pub open spec fn same_but_label(a: QuotaLimit, b: QuotaLimit) -> bool {
    &&& a.unit == b.unit
    &&& a.number == b.number
    &&& a.usage == b.usage
    &&& a.current_value == b.current_value
    &&& a.remaining == b.remaining
    &&& a.percentage_hundredths == b.percentage_hundredths
    &&& a.usage_details == b.usage_details
    &&& a.next_reset_time == b.next_reset_time
}

/// `out` is `limits` with every type code relabeled, in the same order.
pub open spec fn relabeled_limits(limits: Seq<QuotaLimit>, out: Seq<QuotaLimit>) -> bool {
    &&& out.len() == limits.len()
    &&& forall|i: int| 0 <= i < limits.len() ==> {
        &&& #[trigger] out[i].type_field@ == relabeled(limits[i].type_field@)
        &&& same_but_label(limits[i], out[i])
    }
}

/// Diagnostic text of an error.
pub open spec fn error_text(e: FetchError) -> Seq<char> {
    match e {
        FetchError::UnrecognizedEndpoint { url } => UNRECOGNIZED_PREFIX@ + url@,
        FetchError::Transport { cause } => TRANSPORT_PREFIX@ + cause@,
        FetchError::HttpStatus { status, body } => HTTP_PREFIX@ + decimal(status as nat) + SEPARATOR@ + body@,
        FetchError::Schema { cause, raw_body } => SCHEMA_PREFIX@ + cause@ + SCHEMA_BODY_SEPARATOR@ + raw_body@,
    }
}

impl FetchError {
    /// The error as one line of text for the user.
    pub fn message(&self) -> (r: String)
        ensures
            r@ == error_text(*self),
    {
        match self {
            FetchError::UnrecognizedEndpoint { url } => String::from_str(UNRECOGNIZED_PREFIX).concat(url.as_str()),
            FetchError::Transport { cause } => String::from_str(TRANSPORT_PREFIX).concat(cause.as_str()),
            FetchError::HttpStatus { status, body } => {
                let code = render_decimal(*status as u64);
                String::from_str(HTTP_PREFIX).concat(code.as_str()).concat(SEPARATOR).concat(body.as_str())
            },
            FetchError::Schema { cause, raw_body } => String::from_str(SCHEMA_PREFIX).concat(
                cause.as_str(),
            ).concat(SCHEMA_BODY_SEPARATOR).concat(raw_body.as_str()),
        }
    }
}

/// Which of the three usage calls.
#[derive(Debug, Clone, Copy, PartialEq, Eq, Structural)]
pub enum UsageKind {
    ModelUsage,
    ToolUsage,
    QuotaLimit,
}

/// Path of each call under the API domain.
pub open spec fn usage_path(kind: UsageKind) -> Seq<char> {
    match kind {
        UsageKind::ModelUsage => MODEL_USAGE_PATH@,
        UsageKind::ToolUsage => TOOL_USAGE_PATH@,
        UsageKind::QuotaLimit => QUOTA_LIMIT_PATH@,
    }
}

/// A GET request to send: full URL, query pairs and headers, in order.
#[derive(Debug, Clone, PartialEq, Eq)]
pub struct UsageRequest {
    pub url: String,
    pub query: Vec<(String, String)>,
    pub headers: Vec<(String, String)>,
}

/// `pairs` holds exactly the given name/value pairs, in order.
pub open spec fn pairs_are(pairs: Seq<(String, String)>, want: Seq<(Seq<char>, Seq<char>)>) -> bool {
    &&& pairs.len() == want.len()
    &&& forall|i: int| 0 <= i < want.len() ==> (#[trigger] pairs[i]).0@ == want[i].0 && pairs[i].1@ == want[i].1
}

/// The query of a call: the window for model and tool usage, nothing for quotas.
pub open spec fn usage_query(kind: UsageKind, window: TimeWindow) -> Seq<(Seq<char>, Seq<char>)> {
    if kind == UsageKind::QuotaLimit {
        seq![]
    } else {
        seq![(START_TIME_PARAM@, window.start@), (END_TIME_PARAM@, window.end@)]
    }
}

/// The headers of every call.
pub open spec fn usage_headers(token: Seq<char>) -> Seq<(Seq<char>, Seq<char>)> {
    seq![
        (AUTHORIZATION_HEADER@, token),
        (ACCEPT_LANGUAGE_HEADER@, ACCEPT_LANGUAGE_VALUE@),
        (CONTENT_TYPE_HEADER@, CONTENT_TYPE_VALUE@),
    ]
}

fn pair(name: &str, value: &str) -> (r: (String, String))
    ensures
        r.0@ == name@,
        r.1@ == value@,
{
    (String::from_str(name), String::from_str(value))
}

/// The body of a response, when its status is 200.
pub fn check_status(status: u16, body: String) -> (r: Result<String, FetchError>)
    ensures
        status == 200 ==> r == Ok::<String, FetchError>(body),
        status != 200 ==> r == Err::<String, FetchError>(FetchError::HttpStatus { status, body }),
{
    if status == 200 {
        Ok(body)
    } else {
        Err(FetchError::HttpStatus { status, body })
    }
}

/// The label shown for one quota-limit type code.
pub fn relabel_type(code: &String) -> (r: String)
    ensures
        r@ == relabeled(code@),
{
    if *code == String::from_str(TOKENS_LIMIT_CODE) {
        String::from_str(TOKENS_LIMIT_LABEL)
    } else if *code == String::from_str(TIME_LIMIT_CODE) {
        String::from_str(TIME_LIMIT_LABEL)
    } else {
        code.clone()
    }
}

/// Client for the usage API under one configuration. It plans the requests
/// and reshapes the answers; sending them is up to the caller.
pub struct UsageClient {
    pub config: Config,
}

impl UsageClient {
    pub fn new(config: Config) -> (r: UsageClient)
        ensures
            r.config == config,
    {
        UsageClient { config }
    }

    /// The single summary row for a model-usage payload: "All Models" with
    /// its token and call totals.
    pub fn create_model_usage_items(data: &ModelUsageData) -> (r: Vec<ModelUsageItem>)
        ensures
            r@.len() == 1,
            r@[0].model@ == ALL_MODELS@,
            r@[0].token_count == data.total_usage.total_tokens_usage,
            r@[0].request_count == data.total_usage.total_model_call_count,
    {
        let mut items: Vec<ModelUsageItem> = Vec::new();
        items.push(
            ModelUsageItem {
                model: String::from_str(ALL_MODELS),
                token_count: data.total_usage.total_tokens_usage,
                request_count: data.total_usage.total_model_call_count,
            },
        );
        items
    }

    /// The canonical API domain for the configured base URL.
    pub fn get_base_domain(&self) -> (r: Result<String, FetchError>)
        ensures
            match resolve_domain(self.config.base_url@) {
                Some(d) => r matches Ok(s) && s@ == d,
                None => r matches Err(FetchError::UnrecognizedEndpoint { url }) && url@ == self.config.base_url@,
            },
    {
        let base_url = self.config.base_url.as_str();
        if str_contains(base_url, ZAI_FRAGMENT) {
            Ok(String::from_str(ZAI_DOMAIN))
        } else if str_contains(base_url, BIGMODEL_FRAGMENT) || str_contains(base_url, BIGMODEL_DEV_FRAGMENT) {
            Ok(String::from_str(BIGMODEL_DOMAIN))
        } else {
            Err(FetchError::UnrecognizedEndpoint { url: self.config.base_url.clone() })
        }
    }

    /// The request for one usage call over `window` (quota limits take no window).
    pub fn build_request(&self, kind: UsageKind, window: &TimeWindow) -> (r: Result<UsageRequest, FetchError>)
        ensures
            match resolve_domain(self.config.base_url@) {
                Some(d) => r matches Ok(req) && {
                    &&& req.url@ == d + usage_path(kind)
                    &&& pairs_are(req.query@, usage_query(kind, *window))
                    &&& pairs_are(req.headers@, usage_headers(self.config.auth_token@))
                },
                None => r matches Err(FetchError::UnrecognizedEndpoint { url }) && url@ == self.config.base_url@,
            },
    {
        let domain = match self.get_base_domain() {
            Ok(d) => d,
            Err(e) => return Err(e),
        };
        let path = match kind {
            UsageKind::ModelUsage => MODEL_USAGE_PATH,
            UsageKind::ToolUsage => TOOL_USAGE_PATH,
            UsageKind::QuotaLimit => QUOTA_LIMIT_PATH,
        };
        let url = domain.concat(path);
        let mut query: Vec<(String, String)> = Vec::new();
        match kind {
            UsageKind::QuotaLimit => {},
            _ => {
                query.push(pair(START_TIME_PARAM, window.start.as_str()));
                query.push(pair(END_TIME_PARAM, window.end.as_str()));
            },
        }
        let mut headers: Vec<(String, String)> = Vec::new();
        headers.push(pair(AUTHORIZATION_HEADER, self.config.auth_token.as_str()));
        headers.push(pair(ACCEPT_LANGUAGE_HEADER, ACCEPT_LANGUAGE_VALUE));
        headers.push(pair(CONTENT_TYPE_HEADER, CONTENT_TYPE_VALUE));
        assert(pairs_are(query@, usage_query(kind, *window)));
        assert(pairs_are(headers@, usage_headers(self.config.auth_token@)));
        Ok(UsageRequest { url, query, headers })
    }

    /// Summary row and chart series of a model-usage payload.
    pub fn normalize_model_usage(response: ModelUsageResponse) -> (r: ModelUsageResult)
        ensures
            r.items@.len() == 1,
            r.items@[0].model@ == ALL_MODELS@,
            r.items@[0].token_count == response.data.total_usage.total_tokens_usage,
            r.items@[0].request_count == response.data.total_usage.total_model_call_count,
            r.timeseries matches Some(ts) && {
                &&& ts.x_time == response.data.x_time
                &&& ts.model_call_count == response.data.model_call_count
                &&& ts.tokens_usage == response.data.tokens_usage
            },
    {
        let data = response.data;
        let items = Self::create_model_usage_items(&data);
        let timeseries = ModelUsageTimeSeries {
            x_time: data.x_time,
            model_call_count: data.model_call_count,
            tokens_usage: data.tokens_usage,
        };
        ModelUsageResult { items, timeseries: Some(timeseries) }
    }

    /// One row per tool detail of a tool-usage payload, in the same order.
    pub fn normalize_tool_usage(response: &ToolUsageResponse) -> (r: Vec<ToolUsageItem>)
        ensures
            r@.len() == response.data.total_usage.tool_details@.len(),
            forall|i: int| 0 <= i < r@.len() ==> {
                &&& #[trigger] r@[i].tool_name@ == response.data.total_usage.tool_details@[i].model_name@
                &&& r@[i].usage_count == response.data.total_usage.tool_details@[i].total_usage_count
            },
    {
        let details = &response.data.total_usage.tool_details;
        let mut items: Vec<ToolUsageItem> = Vec::new();
        let mut i: usize = 0;
        while i < details.len()
            invariant
                i <= details@.len(),
                items@.len() == i,
                forall|j: int| 0 <= j < i ==> {
                    &&& #[trigger] items@[j].tool_name@ == details@[j].model_name@
                    &&& items@[j].usage_count == details@[j].total_usage_count
                },
            decreases details@.len() - i,
        {
            let d = &details[i];
            items.push(ToolUsageItem { tool_name: d.model_name.clone(), usage_count: d.total_usage_count });
            i = i + 1;
        }
        items
    }

    /// The limits of a quota payload, each type code relabeled for display.
    pub fn normalize_quota_limits(response: QuotaLimitResponse) -> (r: Vec<QuotaLimit>)
        ensures
            relabeled_limits(response.data.limits@, r@),
    {
        let ghost original = response.data.limits@;
        let mut limits = response.data.limits;
        let mut i: usize = 0;
        while i < limits.len()
            invariant
                i <= limits@.len(),
                limits@.len() == original.len(),
                forall|j: int| 0 <= j < original.len() ==> same_but_label(original[j], #[trigger] limits@[j]),
                forall|j: int| 0 <= j < i ==> #[trigger] limits@[j].type_field@ == relabeled(original[j].type_field@),
                forall|j: int| i <= j < original.len() ==> #[trigger] limits@[j].type_field == original[j].type_field,
            decreases limits@.len() - i,
        {
            let label = relabel_type(&limits[i].type_field);
            limits[i].type_field = label;
            i = i + 1;
        }
        limits
    }
}

/// A base URL that contains a known host fragment resolves to that host's
/// canonical domain; one that contains none of them resolves to nothing.
pub proof fn lemma_resolve_known_hosts(url: Seq<char>)
    ensures
        has_infix(url, ZAI_FRAGMENT@) ==> resolve_domain(url) == Some(ZAI_DOMAIN@),
        !has_infix(url, ZAI_FRAGMENT@) && (has_infix(url, BIGMODEL_FRAGMENT@) || has_infix(url, BIGMODEL_DEV_FRAGMENT@))
            ==> resolve_domain(url) == Some(BIGMODEL_DOMAIN@),
        !has_infix(url, ZAI_FRAGMENT@) && !has_infix(url, BIGMODEL_FRAGMENT@) && !has_infix(url, BIGMODEL_DEV_FRAGMENT@)
            ==> resolve_domain(url) is None,
{
}

/// Relabeling leaves an unknown code as it is, and relabeling twice gives
/// what relabeling once gives.
pub proof fn lemma_relabel_idempotent(code: Seq<char>)
    ensures
        code != TOKENS_LIMIT_CODE@ && code != TIME_LIMIT_CODE@ ==> relabeled(code) == code,
        relabeled(relabeled(code)) == relabeled(code),
{
    reveal_strlit("TOKENS_LIMIT");
    reveal_strlit("Token usage (5 Hour)");
    reveal_strlit("TIME_LIMIT");
    reveal_strlit("MCP usage (1 Month)");
    assert(TOKENS_LIMIT_LABEL@[0] != TOKENS_LIMIT_CODE@[1]);
    assert(TOKENS_LIMIT_LABEL@ != TOKENS_LIMIT_CODE@);
    assert(TOKENS_LIMIT_LABEL@.len() != TIME_LIMIT_CODE@.len());
    assert(TIME_LIMIT_LABEL@[1] != TOKENS_LIMIT_CODE@[1]);
    assert(TIME_LIMIT_LABEL@ != TOKENS_LIMIT_CODE@);
    assert(TIME_LIMIT_LABEL@.len() != TIME_LIMIT_CODE@.len());
}

/// A limit whose code is the token-budget code is shown with the token
/// label, whatever its other fields hold.
pub proof fn lemma_token_code_label(limits: Seq<QuotaLimit>, out: Seq<QuotaLimit>, i: int)
    requires
        relabeled_limits(limits, out),
        0 <= i < limits.len(),
        limits[i].type_field@ == TOKENS_LIMIT_CODE@,
    ensures
        out[i].type_field@ == TOKENS_LIMIT_LABEL@,
        same_but_label(limits[i], out[i]),
{
    assert(out[i].type_field@ == relabeled(limits[i].type_field@));
}

} // verus!
