use vstd::prelude::*;
use crate::text::{decimal, digit_char, digit_str, has_infix, render_decimal, str_contains};
use crate::types::{AllUsageData, QuotaLimit};
use crate::window::{clock_text, format_clock, LocalDateTime};

verus! {

/// Label fragment of the token limit.
pub const TOKEN_MARK: &'static str = "Token";
/// Label fragment of the tool (MCP) limit.
pub const MCP_MARK: &'static str = "MCP";

pub const TITLE_TOKEN: &'static str = "T:";
pub const TITLE_MCP: &'static str = "% M:";
pub const PERCENT: &'static str = "%";
pub const STATS_TOKEN: &'static str = "Tokens: ";
pub const STATS_MCP: &'static str = "% | MCP: ";
pub const UPDATED: &'static str = "\nUpdated: ";
pub const MINUS: &'static str = "-";
pub const POINT: &'static str = ".";

/// Texts shown on the tray for one snapshot.
#[derive(Debug, Clone, PartialEq, Eq)]
pub struct TraySummary {
    pub title: String,
    pub tooltip: String,
    pub menu_label: String,
}

/// Consumption of the first limit whose label contains `mark`, or 0.
pub open spec fn first_match_percentage(limits: Seq<QuotaLimit>, mark: Seq<char>) -> int
    decreases limits.len(),
{
    if limits.len() == 0 {
        0
    } else if has_infix(limits[0].type_field@, mark) {
        limits[0].percentage_hundredths as int
    } else {
        first_match_percentage(limits.drop_first(), mark)
    }
}

/// `m / d` rounded to the nearest integer, ties to the even one.
pub open spec fn round_half_even(m: nat, d: nat) -> nat
    recommends
        d > 0,
{
    let q = m / d;
    let r = m % d;
    if 2 * r > d || (2 * r == d && q % 2 == 1) {
        q + 1
    } else {
        q
    }
}

pub open spec fn sign_text(negative: bool) -> Seq<char> {
    if negative { MINUS@ } else { seq![] }
}

/// A consumption in hundredths of a percent, rounded to a whole percent.
pub open spec fn whole_percent_text(h: int) -> Seq<char> {
    let n = round_half_even(if h < 0 { (-h) as nat } else { h as nat }, 100);
    sign_text(h < 0 && n > 0) + decimal(n)
}

/// A consumption in hundredths of a percent, rounded to one decimal.
pub open spec fn tenth_percent_text(h: int) -> Seq<char> {
    let n = round_half_even(if h < 0 { (-h) as nat } else { h as nat }, 10);
    sign_text(h < 0 && n > 0) + decimal(n / 10) + POINT@ + seq![digit_char((n % 10) as int)]
}

pub open spec fn title_text(token: int, mcp: int) -> Seq<char> {
    TITLE_TOKEN@ + whole_percent_text(token) + TITLE_MCP@ + whole_percent_text(mcp) + PERCENT@
}

pub open spec fn stats_text(token: int, mcp: int) -> Seq<char> {
    STATS_TOKEN@ + tenth_percent_text(token) + STATS_MCP@ + tenth_percent_text(mcp) + PERCENT@
}

pub open spec fn token_percentage(data: AllUsageData) -> int {
    first_match_percentage(data.quota_limits@, TOKEN_MARK@)
}

pub open spec fn mcp_percentage(data: AllUsageData) -> int {
    first_match_percentage(data.quota_limits@, MCP_MARK@)
}

/// Consumption of the first limit whose label contains `mark`, or 0 when none does.
pub fn find_percentage(limits: &Vec<QuotaLimit>, mark: &str) -> (r: i64)
    ensures
        r as int == first_match_percentage(limits@, mark@),
{
    let mut i: usize = 0;
    assert(limits@.subrange(0, limits@.len() as int) == limits@);
    while i < limits.len()
        invariant
            i <= limits@.len(),
            first_match_percentage(limits@.subrange(i as int, limits@.len() as int), mark@)
                == first_match_percentage(limits@, mark@),
        decreases limits@.len() - i,
    {
        let ghost rest = limits@.subrange(i as int, limits@.len() as int);
        assert(rest.drop_first() == limits@.subrange(i as int + 1, limits@.len() as int));
        assert(rest[0] == limits@[i as int]);
        if str_contains(limits[i].type_field.as_str(), mark) {
            return limits[i].percentage_hundredths;
        }
        i = i + 1;
    }
    0
}

/// Magnitude of `h` and whether it is negative.
fn magnitude(h: i64) -> (r: u64)
    ensures
        r as int == if h < 0 { -h } else { h as int },
{
    if h < 0 {
        (-(h as i128)) as u64
    } else {
        h as u64
    }
}

fn round_div(m: u64, d: u64) -> (r: u64)
    requires
        2 <= d <= 100,
    ensures
        r as nat == round_half_even(m as nat, d as nat),
{
    let q = m / d;
    let rem = m % d;
    assert(q <= m / 2) by (nonlinear_arith)
        requires
            d >= 2,
            q == m / d,
    ;
    if 2 * rem > d || (2 * rem == d && q % 2 == 1) {
        q + 1
    } else {
        q
    }
}

/// A consumption rendered as a whole percent, without the `%` sign.
pub fn format_whole_percent(h: i64) -> (r: String)
    ensures
        r@ == whole_percent_text(h as int),
{
    let n = round_div(magnitude(h), 100);
    let digits = render_decimal(n);
    if h < 0 && n > 0 {
        String::from_str(MINUS).concat(digits.as_str())
    } else {
        digits
    }
}

/// A consumption rendered with one decimal, without the `%` sign.
pub fn format_tenth_percent(h: i64) -> (r: String)
    ensures
        r@ == tenth_percent_text(h as int),
{
    let n = round_div(magnitude(h), 10);
    let whole = render_decimal(n / 10);
    let text = if h < 0 && n > 0 {
        String::from_str(MINUS).concat(whole.as_str())
    } else {
        whole
    };
    text.concat(POINT).concat(digit_str(n % 10))
}

/// Short tray title: `T:<token>% M:<mcp>%`, whole percents.
pub fn generate_tray_title(data: &AllUsageData) -> (r: String)
    ensures
        r@ == title_text(token_percentage(*data), mcp_percentage(*data)),
{
    let token = find_percentage(&data.quota_limits, TOKEN_MARK);
    let mcp = find_percentage(&data.quota_limits, MCP_MARK);
    String::from_str(TITLE_TOKEN).concat(format_whole_percent(token).as_str()).concat(TITLE_MCP).concat(
        format_whole_percent(mcp).as_str(),
    ).concat(PERCENT)
}

/// Menu label: `Tokens: <token>% | MCP: <mcp>%`, one decimal.
pub fn generate_stats_label(data: &AllUsageData) -> (r: String)
    ensures
        r@ == stats_text(token_percentage(*data), mcp_percentage(*data)),
{
    let token = find_percentage(&data.quota_limits, TOKEN_MARK);
    let mcp = find_percentage(&data.quota_limits, MCP_MARK);
    String::from_str(STATS_TOKEN).concat(format_tenth_percent(token).as_str()).concat(STATS_MCP).concat(
        format_tenth_percent(mcp).as_str(),
    ).concat(PERCENT)
}

/// Tooltip: the menu label, then `Updated: HH:MM` at the given sync time.
pub fn generate_tray_tooltip(data: &AllUsageData, hour: u32, minute: u32) -> (r: String)
    requires
        hour < 24,
        minute < 60,
    ensures
        r@ == stats_text(token_percentage(*data), mcp_percentage(*data)) + UPDATED@ + clock_text(
            hour as int,
            minute as int,
        ),
{
    let stats = generate_stats_label(data);
    let clock = format_clock(hour, minute);
    stats.concat(UPDATED).concat(clock.as_str())
}

/// The tray texts for the latest snapshot at sync time `now`; nothing when
/// no snapshot has been taken yet.
pub fn tray_summary(last: &Option<AllUsageData>, now: &LocalDateTime) -> (r: Option<TraySummary>)
    requires
        now.hour < 24,
        now.minute < 60,
    ensures
        match *last {
            None => r is None,
            Some(data) => r matches Some(s) && {
                &&& s.title@ == title_text(token_percentage(data), mcp_percentage(data))
                &&& s.menu_label@ == stats_text(token_percentage(data), mcp_percentage(data))
                &&& s.tooltip@ == stats_text(token_percentage(data), mcp_percentage(data)) + UPDATED@
                    + clock_text(now.hour as int, now.minute as int)
            },
        },
{
    match last {
        None => None,
        Some(data) => Some(
            TraySummary {
                title: generate_tray_title(data),
                tooltip: generate_tray_tooltip(data, now.hour, now.minute),
                menu_label: generate_stats_label(data),
            },
        ),
    }
}

} // verus!
