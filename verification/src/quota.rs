use vstd::prelude::*;
use vstd::string::StringExecFns;
use vstd::string::StringSliceAdditionalSpecFns;

use crate::models::{clone_opt_string, CodexAccount, CodexAuthMode, CodexQuota};
use crate::text::{concat, is_empty_str, opt_view, res_view, trim, trim_str};

verus! {

#[derive(Clone, Copy, Debug, PartialEq, Eq, Structural)]
pub struct WindowInfo {
    pub used_percent: Option<i32>,
    pub limit_window_seconds: Option<i64>,
    pub reset_after_seconds: Option<i64>,
    pub reset_at: Option<i64>,
}

#[derive(Clone, Copy, Debug, PartialEq, Eq, Structural)]
pub struct RateLimitInfo {
    pub primary_window: Option<WindowInfo>,
    pub secondary_window: Option<WindowInfo>,
}

/// The usage endpoint's answer.
pub struct UsageResponse {
    pub plan_type: Option<String>,
    pub rate_limit: Option<RateLimitInfo>,
    pub code_review_rate_limit: Option<RateLimitInfo>,
}

pub struct QuotaFetchResult {
    pub quota: CodexQuota,
    pub plan_type: Option<String>,
}

/// The share of a window still left, in percent: 100 less the share used,
/// the latter taken as 0 when absent and held to 0..=100.
pub open spec fn spec_remaining(w: WindowInfo) -> int {
    let used: int = match w.used_percent {
        Some(u) => u as int,
        None => 0,
    };
    100 - if used < 0 { 0 } else if used > 100 { 100 } else { used }
}

fn remaining_percentage(window: &WindowInfo) -> (r: i32)
    ensures
        r == spec_remaining(*window),
        0 <= r <= 100,
{
    let used = match window.used_percent {
        Some(u) => u,
        None => 0,
    };
    let clamped = if used < 0 { 0 } else if used > 100 { 100 } else { used };
    100 - clamped
}

/// The length of a window in whole minutes, rounded up; `None` when unknown or
/// not positive.
pub open spec fn spec_window_minutes(w: WindowInfo) -> Option<i64> {
    match w.limit_window_seconds {
        Some(s) if s > 0 => Some(((s + 59) / 60) as i64),
        _ => None,
    }
}

/// When a window resets: its reset time when given, else now plus the seconds
/// left, unless those are negative.
pub open spec fn spec_reset_time(w: WindowInfo, now: i64) -> Option<i64> {
    match w.reset_at {
        Some(at) => Some(at),
        None => match w.reset_after_seconds {
            Some(after) if after >= 0 => Some((now + after) as i64),
            _ => None,
        },
    }
}

/// The arithmetic on a window stays within `i64`: rounding its length up to
/// minutes and adding its seconds left to `now`.
pub open spec fn window_fits(w: Option<WindowInfo>, now: i64) -> bool {
    match w {
        None => true,
        Some(w) => {
            &&& match w.limit_window_seconds {
                Some(s) => s > 0 ==> s + 59 <= i64::MAX,
                None => true,
            }
            &&& match (w.reset_at, w.reset_after_seconds) {
                (None, Some(a)) => a >= 0 ==> now + a <= i64::MAX,
                _ => true,
            }
        },
    }
}

fn window_minutes(window: &WindowInfo) -> (r: Option<i64>)
    requires
        window_fits(Some(*window), 0),
    ensures
        r == spec_window_minutes(*window),
{
    let seconds = match window.limit_window_seconds {
        Some(s) => s,
        None => return None,
    };
    if seconds <= 0 {
        return None;
    }
    Some((seconds + 59) / 60)
}

fn reset_time(window: &WindowInfo, now: i64) -> (r: Option<i64>)
    requires
        window_fits(Some(*window), now),
    ensures
        r == spec_reset_time(*window, now),
{
    if let Some(reset_at) = window.reset_at {
        return Some(reset_at);
    }
    let reset_after_seconds = match window.reset_after_seconds {
        Some(a) => a,
        None => return None,
    };
    if reset_after_seconds < 0 {
        return None;
    }
    Some(now + reset_after_seconds)
}

/// The primary or secondary window of an optional rate limit.
pub open spec fn primary_of(limit: Option<RateLimitInfo>) -> Option<WindowInfo> {
    match limit {
        Some(l) => l.primary_window,
        None => None,
    }
}

pub open spec fn secondary_of(limit: Option<RateLimitInfo>) -> Option<WindowInfo> {
    match limit {
        Some(l) => l.secondary_window,
        None => None,
    }
}

/// The arithmetic on every window of `usage` stays within `i64`.
pub open spec fn usage_fits(usage: UsageResponse, now: i64) -> bool {
    &&& window_fits(primary_of(usage.rate_limit), now)
    &&& window_fits(secondary_of(usage.rate_limit), now)
    &&& window_fits(primary_of(usage.code_review_rate_limit), now)
}

/// Whether the quota of `usage` can be computed at `now` within `i64`.
pub fn usage_in_range(usage: &UsageResponse, now: i64) -> (b: bool)
    ensures
        b == usage_fits(*usage, now),
{
    window_in_range(&primary_window(&usage.rate_limit), now)
        && window_in_range(&secondary_window(&usage.rate_limit), now)
        && window_in_range(&primary_window(&usage.code_review_rate_limit), now)
}

fn window_in_range(w: &Option<WindowInfo>, now: i64) -> (b: bool)
    ensures
        b == window_fits(*w, now),
{
    match w {
        None => true,
        Some(w) => {
            let minutes_fit = match w.limit_window_seconds {
                Some(s) => s <= 0 || s <= i64::MAX - 59,
                None => true,
            };
            let reset_fits = match (w.reset_at, w.reset_after_seconds) {
                (None, Some(a)) => a < 0 || now <= i64::MAX - a,
                _ => true,
            };
            minutes_fit && reset_fits
        },
    }
}

fn primary_window(limit: &Option<RateLimitInfo>) -> (r: Option<WindowInfo>)
    ensures
        r == primary_of(*limit),
{
    match limit {
        Some(l) => l.primary_window,
        None => None,
    }
}

fn secondary_window(limit: &Option<RateLimitInfo>) -> (r: Option<WindowInfo>)
    ensures
        r == secondary_of(*limit),
{
    match limit {
        Some(l) => l.secondary_window,
        None => None,
    }
}

/// The quota that a usage answer gives at time `now`: the primary window is the
/// hourly one and the secondary the weekly one, each 100% left when absent; the
/// code-review window is the primary window of the code-review limit.
pub open spec fn spec_parse_quota(usage: UsageResponse, now: i64) -> CodexQuota {
    let primary = primary_of(usage.rate_limit);
    let secondary = secondary_of(usage.rate_limit);
    let code_review = primary_of(usage.code_review_rate_limit);
    CodexQuota {
        hourly_percentage: match primary { Some(w) => spec_remaining(w) as i32, None => 100 },
        hourly_reset_time: match primary { Some(w) => spec_reset_time(w, now), None => None },
        hourly_window_minutes: match primary { Some(w) => spec_window_minutes(w), None => None },
        hourly_window_present: Some(primary is Some),
        weekly_percentage: match secondary { Some(w) => spec_remaining(w) as i32, None => 100 },
        weekly_reset_time: match secondary { Some(w) => spec_reset_time(w, now), None => None },
        weekly_window_minutes: match secondary { Some(w) => spec_window_minutes(w), None => None },
        weekly_window_present: Some(secondary is Some),
        code_review_percentage: match code_review { Some(w) => Some(spec_remaining(w) as i32), None => None },
        code_review_reset_time: match code_review { Some(w) => spec_reset_time(w, now), None => None },
        code_review_window_minutes: match code_review { Some(w) => spec_window_minutes(w), None => None },
    }
}

fn window_parts(w: &Option<WindowInfo>, now: i64) -> (r: (Option<i32>, Option<i64>, Option<i64>))
    requires
        window_fits(*w, now),
    ensures
        r.0 == match *w { Some(x) => Some(spec_remaining(x) as i32), None => None::<i32> },
        r.1 == match *w { Some(x) => spec_reset_time(x, now), None => None::<i64> },
        r.2 == match *w { Some(x) => spec_window_minutes(x), None => None::<i64> },
{
    match w {
        Some(x) => (Some(remaining_percentage(x)), reset_time(x, now), window_minutes(x)),
        None => (None, None, None),
    }
}

/// The percentage left that a window reports: 100 less its share used, that
/// share held to 0..=100 and taken as 0 when the window gives none.
pub open spec fn left_of(used: Option<i32>) -> int {
    match used {
        None => 100,
        Some(u) => if u <= 0 { 100 } else if u >= 100 { 0 } else { 100 - u },
    }
}

/// What a quota reports of the windows of a usage answer: each of the hourly
/// (primary) and weekly (secondary) windows is reported present exactly when
/// the answer carries it, with the share it leaves, and 100% left when it is
/// absent; the code-review window has a percentage exactly when the answer's
/// code-review limit carries a primary window.
pub open spec fn quota_windows_reported(usage: UsageResponse, q: CodexQuota) -> bool {
    &&& match usage.rate_limit {
        Some(l) => {
            &&& q.hourly_window_present == Some(l.primary_window.is_some())
            &&& q.weekly_window_present == Some(l.secondary_window.is_some())
            &&& q.hourly_percentage == match l.primary_window { Some(w) => left_of(w.used_percent), None => 100 }
            &&& q.weekly_percentage == match l.secondary_window { Some(w) => left_of(w.used_percent), None => 100 }
        },
        None => {
            &&& q.hourly_window_present == Some(false)
            &&& q.weekly_window_present == Some(false)
            &&& q.hourly_percentage == 100
            &&& q.weekly_percentage == 100
        },
    }
    &&& match usage.code_review_rate_limit {
        Some(l) => match l.primary_window {
            Some(w) => q.code_review_percentage == Some(left_of(w.used_percent) as i32),
            None => q.code_review_percentage.is_none(),
        },
        None => q.code_review_percentage.is_none(),
    }
}

/// Every quota computed from a usage answer reports the windows that the
/// answer carries, and only those, with the share each leaves.
pub proof fn lemma_quota_reports_windows(usage: UsageResponse, now: i64)
    ensures
        quota_windows_reported(usage, spec_parse_quota(usage, now)),
{
}

/// The quota that a usage answer gives at time `now`.
pub fn parse_quota(usage: &UsageResponse, now: i64) -> (r: CodexQuota)
    requires
        usage_fits(*usage, now),
    ensures
        r == spec_parse_quota(*usage, now),
        0 <= r.hourly_percentage <= 100,
        0 <= r.weekly_percentage <= 100,
        quota_windows_reported(*usage, r),
{
    let primary = primary_window(&usage.rate_limit);
    let secondary = secondary_window(&usage.rate_limit);
    let code_review = primary_window(&usage.code_review_rate_limit);
    let (p_left, p_reset, p_minutes) = window_parts(&primary, now);
    let (s_left, s_reset, s_minutes) = window_parts(&secondary, now);
    let (c_left, c_reset, c_minutes) = window_parts(&code_review, now);
    CodexQuota {
        hourly_percentage: match p_left { Some(v) => v, None => 100 },
        hourly_reset_time: p_reset,
        hourly_window_minutes: p_minutes,
        hourly_window_present: Some(primary.is_some()),
        weekly_percentage: match s_left { Some(v) => v, None => 100 },
        weekly_reset_time: s_reset,
        weekly_window_minutes: s_minutes,
        weekly_window_present: Some(secondary.is_some()),
        code_review_percentage: c_left,
        code_review_reset_time: c_reset,
        code_review_window_minutes: c_minutes,
    }
}

/// The quota and plan type that a usage answer gives at time `now`.
pub fn quota_result(usage: UsageResponse, now: i64) -> (r: QuotaFetchResult)
    requires
        usage_fits(usage, now),
    ensures
        r.quota == spec_parse_quota(usage, now),
        r.plan_type == usage.plan_type,
{
    let quota = parse_quota(&usage, now);
    QuotaFetchResult { quota, plan_type: usage.plan_type }
}

/// A byte that an HTTP header value may hold: visible ASCII, space, tab, or
/// any byte from 128 up.
pub open spec fn header_byte_ok(b: u8) -> bool {
    (b >= 32 && b != 127) || b == 9
}

/// Whether text makes a valid HTTP header value.
pub open spec fn header_value_ok(s: Seq<char>) -> bool {
    let bytes = vstd::utf8::encode_utf8(s);
    forall|i: int| 0 <= i < bytes.len() ==> header_byte_ok(#[trigger] bytes[i])
}

/// reqwest's `HeaderValue::from_str`: it accepts `value` exactly when every
/// byte of it is visible ASCII, a space, a tab or a byte from 128 up; its error
/// displays as `failed to parse header value`.
#[verifier::external_body]
fn check_header_value(value: &str) -> (r: Result<(), String>)
    ensures
        r is Ok <==> header_value_ok(value@),
        r matches Err(e) ==> e@ == "failed to parse header value"@,
{
    reqwest::header::HeaderValue::from_str(value).map(|_| ()).map_err(|err| err.to_string())
}

/// The headers of a usage request: the bearer authorization and, when the
/// account names one, its ChatGPT account.
pub struct QuotaRequest {
    pub authorization: String,
    pub account_id: Option<String>,
}

/// The URL of the usage endpoint.
pub fn usage_url() -> (r: &'static str)
    ensures
        r@ == "https://chatgpt.com/backend-api/wham/usage"@,
{
    "https://chatgpt.com/backend-api/wham/usage"
}

/// The account identifier sent with a usage request: the account's own, unless
/// it is blank.
pub open spec fn request_account_id(account: CodexAccount) -> Option<Seq<char>> {
    match opt_view(account.account_id) {
        Some(a) => if trim(a).len() > 0 { Some(a) } else { None },
        None => None,
    }
}

/// The usage request for an account, or why there is none: API-key accounts have
/// no web quota, OAuth accounts need tokens, and both headers must be valid.
pub open spec fn spec_quota_request(account: CodexAccount) -> Result<(Seq<char>, Option<Seq<char>>), Seq<char>> {
    if account.auth_mode == CodexAuthMode::Apikey {
        Err("API Key 账号不支持刷新 ChatGPT/Codex 网页额度"@)
    } else {
        match account.tokens {
            None => Err("OAuth 账号缺少 tokens"@),
            Some(t) => {
                let authorization = "Bearer "@ + t.access_token@;
                if !header_value_ok(authorization) {
                    Err("构建 Authorization 头失败: "@ + "failed to parse header value"@)
                } else {
                    match request_account_id(account) {
                        Some(a) => if header_value_ok(a) {
                            Ok((authorization, Some(a)))
                        } else {
                            Err("构建 ChatGPT-Account-Id 头失败: "@ + "failed to parse header value"@)
                        },
                        None => Ok((authorization, None)),
                    }
                }
            },
        }
    }
}

/// The texts of a usage request result.
pub open spec fn request_view(r: Result<QuotaRequest, String>) -> Result<(Seq<char>, Option<Seq<char>>), Seq<char>> {
    match r {
        Ok(q) => Ok((q.authorization@, opt_view(q.account_id))),
        Err(e) => Err(e@),
    }
}

/// The headers of the usage request for an account.
pub fn quota_request(account: &CodexAccount) -> (r: Result<QuotaRequest, String>)
    ensures
        request_view(r) == spec_quota_request(*account),
{
    if account.auth_mode == CodexAuthMode::Apikey {
        return Err(String::from_str("API Key 账号不支持刷新 ChatGPT/Codex 网页额度"));
    }
    let tokens = match &account.tokens {
        Some(t) => t,
        None => return Err(String::from_str("OAuth 账号缺少 tokens")),
    };
    let authorization = concat("Bearer ", tokens.access_token.as_str());
    if let Err(e) = check_header_value(authorization.as_str()) {
        return Err(concat("构建 Authorization 头失败: ", e.as_str()));
    }
    let account_id = match &account.account_id {
        Some(a) => if !is_empty_str(trim_str(a.as_str()).as_str()) {
            Some(a.clone())
        } else {
            None
        },
        None => None,
    };
    if let Some(a) = &account_id {
        if let Err(e) = check_header_value(a.as_str()) {
            return Err(concat("构建 ChatGPT-Account-Id 头失败: ", e.as_str()));
        }
    }
    Ok(QuotaRequest { authorization, account_id })
}

/// The start of a response body shown in an error: its first 240 bytes when it
/// is longer.
pub open spec fn body_preview(body: Seq<char>) -> Seq<char> {
    let bytes = vstd::utf8::encode_utf8(body);
    if bytes.len() > 240 {
        vstd::utf8::decode_utf8(bytes.subrange(0, 240))
    } else {
        body
    }
}

/// The error for a usage answer with a failing status: the status, and the
/// start of the body. Cutting the body after 240 bytes must not split a
/// character.
pub fn quota_status_error(status: &str, body: &str) -> (r: String)
    requires
        vstd::utf8::encode_utf8(body@).len() <= usize::MAX,
        vstd::utf8::encode_utf8(body@).len() > 240 ==> vstd::utf8::is_char_boundary(vstd::utf8::encode_utf8(body@), 240),
    ensures
        r@ == "额度接口返回 "@ + status@ + ": "@ + body_preview(body@),
{
    let head = if body.len() > 240 {
        let (head, _) = body.split_at(240);
        proof {
            vstd::utf8::encode_utf8_decode_utf8(head@);
            assert(head.spec_bytes() =~= vstd::utf8::encode_utf8(body@).subrange(0, 240));
            assert(head@ == vstd::utf8::decode_utf8(vstd::utf8::encode_utf8(body@).subrange(0, 240)));
        }
        head
    } else {
        body
    };
    let a = concat("额度接口返回 ", status);
    let b = concat(a.as_str(), ": ");
    concat(b.as_str(), head)
}

} // verus!
