use zai_usage::aggregate::{evaluate_threshold, merge_usage, record_snapshot, usage_alerts, AlertSeverity};
use zai_usage::client::{check_status, relabel_type, FetchError, UsageClient, UsageKind};
use zai_usage::text::render_decimal;
use zai_usage::tray::{
    find_percentage, format_tenth_percent, format_whole_percent, generate_stats_label,
    generate_tray_title, generate_tray_tooltip, tray_summary,
};
use zai_usage::types::{
    AllUsageData, Config, ModelTotalUsage, ModelUsageData, ModelUsageResponse, ModelUsageResult,
    QuotaLimit, QuotaLimitData, QuotaLimitResponse, ToolDetail, ToolUsageData, ToolUsageItem,
    ToolUsageResponse, TotalUsage, UsageDetail,
};
use zai_usage::window::{get_time_window, time_window_at, time_window_for, LocalDateTime, TimeWindow};

fn client_for(url: &str) -> UsageClient {
    UsageClient::new(Config {
        auth_token: "tok".to_string(),
        base_url: url.to_string(),
        refresh_interval_minutes: 5,
    })
}

fn limit(code: &str, hundredths: i64) -> QuotaLimit {
    QuotaLimit {
        type_field: code.to_string(),
        unit: 3,
        number: 5,
        usage: Some(100),
        current_value: Some(40),
        remaining: Some(60),
        percentage_hundredths: hundredths,
        usage_details: Some(vec![UsageDetail { tool_name: "search".to_string(), usage: 2 }]),
        next_reset_time: Some(1700000000000),
    }
}

fn snapshot(limits: Vec<QuotaLimit>) -> AllUsageData {
    AllUsageData {
        model_usage: vec![],
        model_usage_timeseries: None,
        tool_usage: vec![],
        quota_limits: limits,
        timestamp: 42,
    }
}

fn at(year: i32, month: u32, day: u32, hour: u32, minute: u32, second: u32) -> LocalDateTime {
    LocalDateTime { year, month, day, hour, minute, second }
}

#[test]
fn resolver_maps_known_hosts() {
    assert_eq!(client_for("https://api.z.ai/api/anthropic").get_base_domain(), Ok("https://api.z.ai".to_string()));
    assert_eq!(
        client_for("https://open.bigmodel.cn/api/anthropic").get_base_domain(),
        Ok("https://open.bigmodel.cn".to_string())
    );
    assert_eq!(client_for("http://dev.bigmodel.cn:8080/x").get_base_domain(), Ok("https://open.bigmodel.cn".to_string()));
}

#[test]
fn resolver_rejects_unknown_hosts() {
    for url in ["https://example.com/api", "", "api.z", "bigmodel.cn", "\u{1F600}::not a url"] {
        assert_eq!(
            client_for(url).get_base_domain(),
            Err(FetchError::UnrecognizedEndpoint { url: url.to_string() })
        );
    }
}

#[test]
fn window_for_fixed_now() {
    let w = time_window_at(&at(2024, 3, 15, 14, 23, 7));
    assert_eq!(w.start, "2024-03-14 14:00:00");
    assert_eq!(w.end, "2024-03-15 14:59:59");
}

#[test]
fn window_across_month_and_year() {
    let w = time_window_at(&at(2024, 3, 1, 0, 5, 0));
    assert_eq!(w, TimeWindow { start: "2024-02-29 00:00:00".to_string(), end: "2024-03-01 00:59:59".to_string() });
    let w = time_window_at(&at(2023, 1, 1, 23, 59, 59));
    assert_eq!(w.start, "2022-12-31 23:00:00");
    assert_eq!(w.end, "2023-01-01 23:59:59");
}

#[test]
fn window_for_current_time_has_wire_format() {
    let w = get_time_window().expect("clock within four-digit years");
    assert_eq!(w.start.len(), 19);
    assert!(w.start.ends_with(":00:00"));
    assert!(w.end.ends_with(":59:59"));
}

#[test]
fn relabel_unknown_code_twice_unchanged() {
    let once = relabel_type(&"CUSTOM_LIMIT".to_string());
    let twice = relabel_type(&once);
    assert_eq!(once, "CUSTOM_LIMIT");
    assert_eq!(twice, "CUSTOM_LIMIT");
}

#[test]
fn relabel_known_codes() {
    assert_eq!(relabel_type(&"TOKENS_LIMIT".to_string()), "Token usage (5 Hour)");
    assert_eq!(relabel_type(&"TIME_LIMIT".to_string()), "MCP usage (1 Month)");
}

#[test]
fn quota_limits_relabeled_fields_kept() {
    let mut other = limit("TOKENS_LIMIT", 1);
    other.usage = None;
    other.usage_details = None;
    let response = QuotaLimitResponse {
        code: 200,
        msg: "ok".to_string(),
        data: QuotaLimitData { limits: vec![limit("TOKENS_LIMIT", 4525), limit("TIME_LIMIT", 9000), limit("CUSTOM_LIMIT", 0), other.clone()] },
        success: true,
    };
    let out = UsageClient::normalize_quota_limits(response);
    assert_eq!(out.len(), 4);
    let mut expected = limit("Token usage (5 Hour)", 4525);
    assert_eq!(out[0], expected);
    expected = limit("MCP usage (1 Month)", 9000);
    assert_eq!(out[1], expected);
    assert_eq!(out[2], limit("CUSTOM_LIMIT", 0));
    other.type_field = "Token usage (5 Hour)".to_string();
    assert_eq!(out[3], other);
}

#[test]
fn thresholds_inclusive() {
    assert_eq!(evaluate_threshold(8990), Some(AlertSeverity::Warning));
    assert_eq!(evaluate_threshold(9000), Some(AlertSeverity::Critical));
    assert_eq!(evaluate_threshold(6990), None);
    assert_eq!(evaluate_threshold(7000), Some(AlertSeverity::Warning));
    assert_eq!(evaluate_threshold(10000), Some(AlertSeverity::Critical));
    assert_eq!(AlertSeverity::Warning.as_str(), "warning");
    assert_eq!(AlertSeverity::Critical.as_str(), "critical");
}

#[test]
fn alerts_follow_limits_in_order() {
    let limits = vec![limit("A", 6990), limit("B", 9500), limit("C", 7000), limit("D", 0)];
    let alerts = usage_alerts(&limits);
    assert_eq!(alerts.len(), 2);
    assert_eq!(alerts[0].type_label, "B");
    assert_eq!(alerts[0].percentage_hundredths, 9500);
    assert_eq!(alerts[0].severity, AlertSeverity::Critical);
    assert_eq!(alerts[1].type_label, "C");
    assert_eq!(alerts[1].severity, AlertSeverity::Warning);
}

fn model_response(tokens: i64, calls: i64) -> ModelUsageResponse {
    ModelUsageResponse {
        code: 200,
        msg: "ok".to_string(),
        data: ModelUsageData {
            x_time: vec!["2024-03-15 13:00".to_string(), "2024-03-15 14:00".to_string()],
            model_call_count: vec![Some(3), None],
            tokens_usage: vec![None, Some(12)],
            total_usage: ModelTotalUsage { total_model_call_count: calls, total_tokens_usage: tokens },
        },
        success: true,
    }
}

#[test]
fn model_usage_single_summary_row() {
    let r = UsageClient::normalize_model_usage(model_response(12345, 67));
    assert_eq!(r.items.len(), 1);
    assert_eq!(r.items[0].model, "All Models");
    assert_eq!(r.items[0].token_count, 12345);
    assert_eq!(r.items[0].request_count, 67);
    let ts = r.timeseries.expect("series");
    assert_eq!(ts.x_time.len(), 2);
    assert_eq!(ts.model_call_count, vec![Some(3), None]);
    assert_eq!(ts.tokens_usage, vec![None, Some(12)]);
}

fn tool_response(names: &[(&str, i64)]) -> ToolUsageResponse {
    ToolUsageResponse {
        code: 200,
        msg: "ok".to_string(),
        data: ToolUsageData {
            total_usage: TotalUsage {
                total_network_search_count: 9,
                total_web_read_mcp_count: 8,
                total_zread_mcp_count: 7,
                total_search_mcp_count: 6,
                tool_details: names
                    .iter()
                    .map(|(n, c)| ToolDetail { model_name: n.to_string(), total_usage_count: *c })
                    .collect(),
            },
        },
        success: true,
    }
}

#[test]
fn tool_usage_keeps_order_and_count() {
    let items = UsageClient::normalize_tool_usage(&tool_response(&[("search", 5), ("web-reader", 0), ("zread", 12)]));
    assert_eq!(
        items,
        vec![
            ToolUsageItem { tool_name: "search".to_string(), usage_count: 5 },
            ToolUsageItem { tool_name: "web-reader".to_string(), usage_count: 0 },
            ToolUsageItem { tool_name: "zread".to_string(), usage_count: 12 },
        ]
    );
    assert!(UsageClient::normalize_tool_usage(&tool_response(&[])).is_empty());
}

#[test]
fn status_other_than_ok_is_error() {
    assert_eq!(check_status(200, "{}".to_string()), Ok("{}".to_string()));
    assert_eq!(
        check_status(500, "boom".to_string()),
        Err(FetchError::HttpStatus { status: 500, body: "boom".to_string() })
    );
    assert_eq!(
        check_status(204, String::new()),
        Err(FetchError::HttpStatus { status: 204, body: String::new() })
    );
}

#[test]
fn error_messages() {
    assert_eq!(FetchError::HttpStatus { status: 500, body: "boom".to_string() }.message(), "HTTP 500: boom");
    assert_eq!(FetchError::Transport { cause: "timeout".to_string() }.message(), "Request failed: timeout");
    assert_eq!(
        FetchError::Schema { cause: "missing field".to_string(), raw_body: "{}".to_string() }.message(),
        "Parse error: missing field - Response was: {}"
    );
    assert_eq!(
        FetchError::UnrecognizedEndpoint { url: "x".to_string() }.message(),
        "Unrecognized base URL: x"
    );
}

#[test]
fn requests_for_each_call() {
    let client = client_for("https://api.z.ai/api/anthropic");
    let window = TimeWindow { start: "2024-03-14 14:00:00".to_string(), end: "2024-03-15 14:59:59".to_string() };
    let model = client.build_request(UsageKind::ModelUsage, &window).unwrap();
    assert_eq!(model.url, "https://api.z.ai/api/monitor/usage/model-usage");
    assert_eq!(
        model.query,
        vec![
            ("startTime".to_string(), "2024-03-14 14:00:00".to_string()),
            ("endTime".to_string(), "2024-03-15 14:59:59".to_string()),
        ]
    );
    assert_eq!(
        model.headers,
        vec![
            ("Authorization".to_string(), "tok".to_string()),
            ("Accept-Language".to_string(), "en-US,en".to_string()),
            ("Content-Type".to_string(), "application/json".to_string()),
        ]
    );
    let tool = client.build_request(UsageKind::ToolUsage, &window).unwrap();
    assert_eq!(tool.url, "https://api.z.ai/api/monitor/usage/tool-usage");
    assert_eq!(tool.query.len(), 2);
    let quota = client.build_request(UsageKind::QuotaLimit, &window).unwrap();
    assert_eq!(quota.url, "https://api.z.ai/api/monitor/usage/quota/limit");
    assert!(quota.query.is_empty());
    assert_eq!(
        client_for("nowhere").build_request(UsageKind::QuotaLimit, &window),
        Err(FetchError::UnrecognizedEndpoint { url: "nowhere".to_string() })
    );
}

fn model_result() -> ModelUsageResult {
    UsageClient::normalize_model_usage(model_response(10, 1))
}

#[test]
fn failed_quota_call_fails_poll_and_keeps_snapshot() {
    let error = FetchError::HttpStatus { status: 500, body: "down".to_string() };
    let merged = merge_usage(Ok(model_result()), Ok(vec![]), Err(error.clone()), 0, 1, 2, 7);
    assert_eq!(merged, Err(error.clone()));
    let previous = snapshot(vec![limit("Token usage (5 Hour)", 100)]);
    let mut last = Some(previous.clone());
    assert_eq!(record_snapshot(&mut last, merged), Err(error));
    assert_eq!(last, Some(previous));
}

#[test]
fn first_failure_wins() {
    let a = FetchError::Transport { cause: "a".to_string() };
    let b = FetchError::HttpStatus { status: 401, body: "b".to_string() };
    assert_eq!(merge_usage(Err(a.clone()), Err(b.clone()), Ok(vec![]), 0, 1, 2, 1), Err(a.clone()));
    assert_eq!(merge_usage(Err(a.clone()), Err(b.clone()), Ok(vec![]), 2, 0, 1, 1), Err(b.clone()));
    assert_eq!(merge_usage(Ok(model_result()), Err(b.clone()), Err(a.clone()), 0, 2, 1, 1), Err(a.clone()));
    assert_eq!(merge_usage(Err(a.clone()), Ok(vec![]), Err(b.clone()), 1, 0, 1, 1), Err(a));
    assert_eq!(merge_usage(Ok(model_result()), Err(b.clone()), Ok(vec![]), 2, 1, 0, 1), Err(b));
}

#[test]
fn successful_poll_replaces_snapshot() {
    let tools = vec![ToolUsageItem { tool_name: "search".to_string(), usage_count: 1 }];
    let limits = vec![limit("Token usage (5 Hour)", 9100), limit("MCP usage (1 Month)", 100)];
    let merged = merge_usage(Ok(model_result()), Ok(tools.clone()), Ok(limits.clone()), 2, 0, 1, 99).unwrap();
    assert_eq!(merged.model_usage, model_result().items);
    assert_eq!(merged.model_usage_timeseries, model_result().timeseries);
    assert_eq!(merged.tool_usage, tools);
    assert_eq!(merged.quota_limits, limits);
    assert_eq!(merged.timestamp, 99);
    let mut last = Some(snapshot(vec![]));
    let alerts = record_snapshot(&mut last, Ok(merged.clone())).unwrap();
    assert_eq!(last, Some(merged));
    assert_eq!(alerts.len(), 1);
    assert_eq!(alerts[0].severity, AlertSeverity::Critical);
}

#[test]
fn percent_rendering() {
    assert_eq!(format_whole_percent(4550), "46");
    assert_eq!(format_whole_percent(4450), "44");
    assert_eq!(format_whole_percent(8990), "90");
    assert_eq!(format_whole_percent(0), "0");
    assert_eq!(format_whole_percent(-250), "-2");
    assert_eq!(format_tenth_percent(8990), "89.9");
    assert_eq!(format_tenth_percent(4525), "45.2");
    assert_eq!(format_tenth_percent(4535), "45.4");
    assert_eq!(format_tenth_percent(0), "0.0");
    assert_eq!(format_tenth_percent(10000), "100.0");
    assert_eq!(format_tenth_percent(-126), "-1.3");
    assert_eq!(render_decimal(0), "0");
    assert_eq!(render_decimal(18446744073709551615), "18446744073709551615");
}

#[test]
fn tray_texts_pick_first_match() {
    let data = snapshot(vec![
        limit("CUSTOM", 5000),
        limit("Token usage (5 Hour)", 4525),
        limit("Token other", 9999),
        limit("MCP usage (1 Month)", 1234),
    ]);
    assert_eq!(find_percentage(&data.quota_limits, "Token"), 4525);
    assert_eq!(generate_tray_title(&data), "T:45% M:12%");
    assert_eq!(generate_stats_label(&data), "Tokens: 45.2% | MCP: 12.3%");
    assert_eq!(generate_tray_tooltip(&data, 9, 5), "Tokens: 45.2% | MCP: 12.3%\nUpdated: 09:05");
}

#[test]
fn tray_texts_default_to_zero() {
    let data = snapshot(vec![limit("CUSTOM", 5000)]);
    assert_eq!(generate_tray_title(&data), "T:0% M:0%");
    assert_eq!(generate_stats_label(&data), "Tokens: 0.0% | MCP: 0.0%");
}

#[test]
fn tray_summary_needs_snapshot() {
    let now = at(2024, 3, 15, 14, 23, 7);
    assert_eq!(tray_summary(&None, &now), None);
    let data = snapshot(vec![limit("MCP usage (1 Month)", 7050)]);
    let s = tray_summary(&Some(data), &now).unwrap();
    assert_eq!(s.title, "T:0% M:70%");
    assert_eq!(s.menu_label, "Tokens: 0.0% | MCP: 70.5%");
    assert_eq!(s.tooltip, "Tokens: 0.0% | MCP: 70.5%\nUpdated: 14:23");
}

#[test]
fn default_config() {
    let c = Config::default();
    assert_eq!(c.auth_token, "");
    assert_eq!(c.base_url, "https://api.z.ai/api/anthropic");
    assert_eq!(c.refresh_interval_minutes, 5);
}

#[test]
fn window_only_for_four_digit_years() {
    let w = time_window_for(&at(2024, 3, 15, 14, 23, 7)).unwrap();
    assert_eq!(w.start, "2024-03-14 14:00:00");
    assert_eq!(w.end, "2024-03-15 14:59:59");
    assert_eq!(time_window_for(&at(10000, 1, 1, 0, 0, 0)), None);
    assert_eq!(time_window_for(&at(0, 6, 1, 0, 0, 0)), None);
    let w = time_window_for(&at(1, 1, 1, 5, 0, 0)).unwrap();
    assert_eq!(w.start, "0000-12-31 05:00:00");
}
