use kiro_provider::call::{Action, Event, RetryCall};
use kiro_provider::clients::TlsBackend;
use kiro_provider::error::{CallError, CallKind};
use kiro_provider::provider::{KiroProvider, RateLimitSettings};
use kiro_provider::rate_limit::RateLimitReason;
use kiro_provider::status::HttpStatus;

type Call<'a> = RetryCall<'a, String>;

const SUSPICIOUS: &str = "Due to suspicious activity";

fn provider() -> KiroProvider {
    provider_with(2, 0, 2)
}

fn provider_with(normal: u64, suspicious: u64, most_cooled: u64) -> KiroProvider {
    KiroProvider::with_proxy(
        RateLimitSettings {
            rate_limit_retries_per_credential: normal,
            rate_limit_cooldown_seconds: 60,
            suspicious_rate_limit_retries_per_credential: suspicious,
            suspicious_rate_limit_cooldown_seconds: 900,
            rate_limit_max_cooled_credentials_per_request: most_cooled,
        },
        TlsBackend::Rustls,
        None,
        vec!["ide".to_string()],
        "ide".to_string(),
        |_, _, _| -> Result<(), ()> { Ok(()) },
    )
    .unwrap()
    .0
}

fn tell(call: &mut Call<'_>, event: Event<String>) -> Action<String> {
    assert!(call.expects(&event));
    call.step(event)
}

fn acquire(call: &mut Call<'_>, id: u64) -> Action<String> {
    tell(call, Event::Acquired { id, endpoint: None })
}

fn refuse(call: &mut Call<'_>, code: u16, body: &str) -> Action<String> {
    let status = HttpStatus::from_u16(code).unwrap();
    assert!(matches!(tell(call, Event::Responded { status }), Action::ReadBody));
    tell(call, Event::Body { text: Some(body.to_string()) })
}

fn message(action: Action<String>) -> String {
    match action {
        Action::Fail { error: CallError::Outside(error) } => error,
        Action::Fail { error } => error.message().unwrap(),
        other => panic!("the call did not fail: {:?}", other),
    }
}

#[test]
fn success_ends_the_call() {
    let p = provider();
    let (mut call, first): (Call<'_>, _) = p.call_api("{}", 1);
    assert!(matches!(first, Action::Acquire));
    assert!(matches!(acquire(&mut call, 7), Action::Send { endpoint: 0 }));
    let status = HttpStatus::from_u16(204).unwrap();
    assert!(matches!(tell(&mut call, Event::Responded { status }), Action::Succeed { id: 7 }));
    assert!(!call.expects(&Event::Slept));
    assert!(!call.expects(&Event::Acquired { id: 7, endpoint: None }));
}

#[test]
fn api_calls_know_their_model_and_mcp_calls_have_none() {
    let p = provider();
    let body =
        r#"{"conversationState":{"currentMessage":{"userInputMessage":{"modelId":"m1"}}}}"#;
    let (call, _): (Call<'_>, _) = p.call_api(body, 1);
    assert_eq!(call.model(), Some("m1"));
    let (call, _): (Call<'_>, _) = p.call_api_stream(body, 1);
    assert_eq!(call.model(), Some("m1"));
    let (call, _): (Call<'_>, _) = p.call_api("no json", 1);
    assert_eq!(call.model(), None);
    let (call, _): (Call<'_>, _) = p.call_mcp(1);
    assert_eq!(call.model(), None);
}

#[test]
fn no_credentials_end_the_call_at_once() {
    let p = provider();
    let (_, first): (Call<'_>, _) = p.call_mcp(0);
    assert_eq!(message(first), "MCP 请求失败：已达到最大重试次数（0次）");
    let (_, first): (Call<'_>, _) = p.call_api_stream("{}", 0);
    assert_eq!(message(first), "流式 API 请求失败：已达到最大重试次数（0次）");
    let (_, first): (Call<'_>, _) = p.call_api("{}", 0);
    assert_eq!(message(first), "非流式 API 请求失败：已达到最大重试次数（0次）");
}

#[test]
fn unsent_requests_are_tried_again_after_a_pause() {
    let p = provider();
    let (mut call, _): (Call<'_>, _) = p.call_api("{}", 1);
    for attempt in 0..2usize {
        acquire(&mut call, 1);
        let action = tell(&mut call, Event::SendFailed { error: format!("e{}", attempt) });
        assert!(matches!(action, Action::Sleep { attempt: a } if a == attempt));
        assert!(matches!(tell(&mut call, Event::Slept), Action::Acquire));
    }
    acquire(&mut call, 1);
    let action = tell(&mut call, Event::SendFailed { error: "e2".to_string() });
    assert_eq!(message(action), "e2");
}

/// Runs a call whose sends are all answered with this status and body, and whose tries get the
/// credentials in turn. Gives back the credentials of all sends, the number of events and the
/// last action.
fn run_refused(
    started: (Call<'_>, Action<String>),
    ids: &[u64],
    code: u16,
    body: &str,
) -> (Vec<u64>, usize, Action<String>) {
    let (mut call, mut action) = started;
    let mut sent: Vec<u64> = Vec::new();
    let mut tries = 0;
    let mut id = 0;
    let mut events = 0;
    loop {
        let event = match action {
            Action::Acquire => {
                id = ids[tries % ids.len()];
                tries += 1;
                Event::Acquired { id, endpoint: None }
            }
            Action::Send { .. } => {
                sent.push(id);
                Event::Responded { status: HttpStatus::from_u16(code).unwrap() }
            }
            Action::ReadBody => Event::Body { text: Some(body.to_string()) },
            Action::Sleep { .. } => Event::Slept,
            Action::ReportRateLimited { .. } => Event::Availability { any: true },
            Action::QueryRetryAfter => Event::RetryAfter { seconds: Some(1) },
            end => return (sent, events, end),
        };
        events += 1;
        action = tell(&mut call, event);
    }
}

#[test]
fn at_most_nine_tries_are_made() {
    let p = provider();
    let (sent, _, end) = run_refused(p.call_api("{}", 100), &[1, 2, 3], 503, "busy");
    assert_eq!(sent, vec![1, 2, 3, 1, 2, 3, 1, 2, 3]);
    assert_eq!(message(end), "非流式 API 请求失败: 503 Service Unavailable busy");
}

#[test]
fn one_credential_is_retried_at_most_three_times() {
    let p = provider();
    let (sent, _, end) = run_refused(p.call_api("{}", 3), &[7], 500, "oops");
    assert_eq!(sent, vec![7, 7, 7, 7]);
    assert_eq!(message(end), "非流式 API 请求失败: 500 Internal Server Error oops");
}

#[test]
fn unsent_requests_count_toward_the_retries_of_a_credential() {
    let p = provider();
    let (mut call, _): (Call<'_>, _) = p.call_mcp(3);
    for attempt in 0..4 {
        assert!(matches!(acquire(&mut call, 7), Action::Send { .. }));
        let error = format!("e{}", attempt);
        assert!(matches!(tell(&mut call, Event::SendFailed { error }), Action::Sleep { .. }));
        assert!(matches!(tell(&mut call, Event::Slept), Action::Acquire));
    }
    for _ in 4..8 {
        assert!(matches!(acquire(&mut call, 7), Action::Acquire));
    }
    assert_eq!(message(acquire(&mut call, 7)), "e3");
}

#[test]
fn another_credential_can_still_be_used_when_one_is_used_up() {
    let p = provider();
    let ids = [7, 7, 7, 7, 7, 8, 7, 8, 9];
    let (sent, _, end) = run_refused(p.call_api("{}", 3), &ids, 500, "oops");
    assert_eq!(sent, vec![7, 7, 7, 7, 8, 8, 9]);
    assert_eq!(message(end), "非流式 API 请求失败: 500 Internal Server Error oops");
}

#[test]
fn calls_report_where_they_stand() {
    let p = provider();
    let (mut call, _): (Call<'_>, _) = p.call_api_stream("{}", 2);
    assert_eq!(call.kind(), CallKind::Api { stream: true });
    assert_eq!((call.attempt(), call.max_retries()), (0, 6));
    acquire(&mut call, 1);
    refuse(&mut call, 500, "oops");
    tell(&mut call, Event::Slept);
    assert_eq!((call.attempt(), call.max_retries()), (1, 6));
    let (call, _): (Call<'_>, _) = p.call_mcp(1);
    assert_eq!(call.kind(), CallKind::Mcp);
    let (call, _): (Call<'_>, _) = p.call_api("{}", 1);
    assert_eq!(call.kind(), CallKind::Api { stream: false });
}

#[test]
fn resends_after_limits_count_toward_the_retries_of_a_credential() {
    let p = provider_with(20, 0, 5);
    let (sent, _, end) = run_refused(p.call_api("{}", 1), &[1], 429, "Too many requests");
    assert_eq!(sent, vec![1, 1, 1, 1]);
    assert!(matches!(end, Action::Fail { error: CallError::RateLimited(_) }));
}

#[test]
fn resends_after_limits_count_toward_all_retries() {
    let p = provider_with(20, 0, 9);
    let (sent, _, end) =
        run_refused(p.call_api("{}", 5), &[1, 2, 3, 4, 5], 429, "Too many requests");
    assert_eq!(sent, vec![1, 1, 1, 1, 2, 2, 2, 2, 3, 3]);
    assert!(matches!(end, Action::Fail { error: CallError::RateLimited(_) }));
    let (sent, _, _) = run_refused(p.call_api("{}", 2), &[1, 2], 429, "Too many requests");
    assert_eq!(sent, vec![1, 1, 1, 1, 2, 2, 2]);
}

#[test]
fn timeouts_and_odd_statuses_are_tried_again() {
    let p = provider();
    for code in [408u16, 500, 302, 101, 600] {
        let (mut call, _): (Call<'_>, _) = p.call_mcp(1);
        acquire(&mut call, 1);
        assert!(matches!(refuse(&mut call, code, ""), Action::Sleep { attempt: 0 }));
        let (mut call, _): (Call<'_>, _) = p.call_mcp(1);
        acquire(&mut call, 1);
        tell(&mut call, Event::Responded { status: HttpStatus::from_u16(code).unwrap() });
        let action = tell(&mut call, Event::Body { text: None });
        assert!(matches!(action, Action::Sleep { attempt: 0 }));
    }
}

#[test]
fn faulty_requests_end_at_once() {
    let p = provider();
    let (mut call, _): (Call<'_>, _) = p.call_mcp(3);
    acquire(&mut call, 1);
    assert_eq!(message(refuse(&mut call, 400, "bad")), "MCP 请求失败: 400 Bad Request bad");
    let (mut call, _): (Call<'_>, _) = p.call_api("{}", 3);
    acquire(&mut call, 1);
    assert_eq!(
        message(refuse(&mut call, 404, "gone")),
        "非流式 API 请求失败: 404 Not Found gone"
    );
}

#[test]
fn unreadable_bodies_count_as_empty() {
    let p = provider();
    let (mut call, _): (Call<'_>, _) = p.call_mcp(1);
    acquire(&mut call, 1);
    tell(&mut call, Event::Responded { status: HttpStatus::from_u16(400).unwrap() });
    let action = tell(&mut call, Event::Body { text: None });
    assert_eq!(message(action), "MCP 请求失败: 400 Bad Request ");
}

#[test]
fn normal_limits_are_retried_before_the_credential_cools() {
    let p = provider();
    let (mut call, _): (Call<'_>, _) = p.call_api("{}", 2);
    acquire(&mut call, 5);
    for again in 0..2usize {
        let action = refuse(&mut call, 429, "slow down");
        assert!(matches!(action, Action::Sleep { attempt } if attempt == again));
        assert!(matches!(tell(&mut call, Event::Slept), Action::Send { endpoint: 0 }));
    }
    match refuse(&mut call, 429, "slow down") {
        Action::ReportRateLimited { id, cooldown_seconds, reason } => {
            assert_eq!((id, cooldown_seconds, reason), (5, 60, RateLimitReason::Normal));
        }
        other => panic!("{:?}", other),
    }
    assert!(matches!(
        tell(&mut call, Event::Availability { any: true }),
        Action::QueryRetryAfter
    ));
    assert!(matches!(tell(&mut call, Event::RetryAfter { seconds: None }), Action::Acquire));
}

#[test]
fn suspicious_limits_cool_the_credential_at_once() {
    let p = provider();
    let (mut call, _): (Call<'_>, _) = p.call_api("{}", 2);
    acquire(&mut call, 5);
    match refuse(&mut call, 429, SUSPICIOUS) {
        Action::ReportRateLimited { id, cooldown_seconds, reason } => {
            assert_eq!((id, cooldown_seconds, reason), (5, 900, RateLimitReason::Suspicious));
        }
        other => panic!("{:?}", other),
    }
    tell(&mut call, Event::Availability { any: false });
    match tell(&mut call, Event::RetryAfter { seconds: None }) {
        Action::Fail { error: CallError::RateLimited(error) } => {
            assert_eq!(
                error.message(),
                "All available upstream credentials are currently rate limited."
            );
            assert_eq!(error.retry_after_seconds(), Some(900));
        }
        other => panic!("{:?}", other),
    }
}

#[test]
fn retries_on_one_credential_go_by_the_kind_of_each_limit() {
    let p = provider_with(1, 3, 2);
    let (mut call, _): (Call<'_>, _) = p.call_api("{}", 2);
    acquire(&mut call, 5);
    for _ in 0..3 {
        assert!(matches!(refuse(&mut call, 429, SUSPICIOUS), Action::Sleep { .. }));
        assert!(matches!(tell(&mut call, Event::Slept), Action::Send { .. }));
    }
    assert!(matches!(
        refuse(&mut call, 429, "slow down"),
        Action::ReportRateLimited { reason: RateLimitReason::Normal, .. }
    ));
}

#[test]
fn too_many_cooled_credentials_end_the_call() {
    let p = provider_with(0, 0, 2);
    let (mut call, _): (Call<'_>, _) = p.call_api("{}", 5);
    acquire(&mut call, 1);
    assert!(matches!(refuse(&mut call, 429, ""), Action::ReportRateLimited { id: 1, .. }));
    tell(&mut call, Event::Availability { any: true });
    assert!(matches!(tell(&mut call, Event::RetryAfter { seconds: Some(9) }), Action::Acquire));
    acquire(&mut call, 2);
    assert!(matches!(refuse(&mut call, 429, ""), Action::ReportRateLimited { id: 2, .. }));
    tell(&mut call, Event::Availability { any: true });
    assert!(matches!(
        tell(&mut call, Event::RetryAfter { seconds: Some(9) }),
        Action::QueryRetryAfter
    ));
    match tell(&mut call, Event::RetryAfter { seconds: Some(8) }) {
        Action::Fail { error: CallError::RateLimited(error) } => {
            assert_eq!(
                error.message(),
                "Upstream rate limit protection is active for this request. Please retry later."
            );
            assert_eq!(error.retry_after_seconds(), Some(8));
        }
        other => panic!("{:?}", other),
    }
}

#[test]
fn limits_explain_why_no_credential_can_be_had() {
    let p = provider();
    let (mut call, _): (Call<'_>, _) = p.call_mcp(1);
    let action = tell(&mut call, Event::AcquireFailed { error: "none".to_string() });
    assert!(matches!(action, Action::QueryRetryAfter));
    assert!(matches!(
        tell(&mut call, Event::RetryAfter { seconds: Some(4) }),
        Action::QueryRetryAfter
    ));
    match tell(&mut call, Event::RetryAfter { seconds: None }) {
        Action::Fail { error: CallError::RateLimited(error) } => {
            assert_eq!(error.retry_after_seconds(), Some(60));
        }
        other => panic!("{:?}", other),
    }
}

#[test]
fn missing_credentials_are_asked_for_again() {
    let p = provider();
    let (mut call, _): (Call<'_>, _) = p.call_mcp(1);
    for _ in 0..2 {
        tell(&mut call, Event::AcquireFailed { error: "none".to_string() });
        assert!(matches!(tell(&mut call, Event::RetryAfter { seconds: None }), Action::Acquire));
    }
    tell(&mut call, Event::AcquireFailed { error: "still none".to_string() });
    assert_eq!(message(tell(&mut call, Event::RetryAfter { seconds: None })), "still none");
}

#[test]
fn unknown_endpoints_are_reported() {
    let p = provider();
    let (mut call, _): (Call<'_>, _) = p.call_mcp(1);
    for last in [false, false, true] {
        let event = Event::Acquired { id: 3, endpoint: Some("web".to_string()) };
        assert!(matches!(tell(&mut call, event), Action::ReportFailure { id: 3 }));
        let action = tell(&mut call, Event::Availability { any: false });
        if last {
            assert_eq!(message(action), "未知端点: web");
        } else {
            assert!(matches!(action, Action::Acquire));
        }
    }
}

#[test]
fn used_up_quotas_pass_to_the_next_credential() {
    let p = provider();
    let (mut call, _): (Call<'_>, _) = p.call_api("{}", 2);
    acquire(&mut call, 1);
    assert!(matches!(refuse(&mut call, 402, "quota"), Action::AskMonthlyLimit));
    assert_eq!(call.body_in_question(), Some("quota"));
    assert!(matches!(
        tell(&mut call, Event::Judged { yes: true }),
        Action::ReportQuotaExhausted { id: 1 }
    ));
    assert!(matches!(tell(&mut call, Event::Availability { any: true }), Action::Acquire));
    acquire(&mut call, 2);
    refuse(&mut call, 402, "quota");
    tell(&mut call, Event::Judged { yes: true });
    assert_eq!(
        message(tell(&mut call, Event::Availability { any: false })),
        "非流式 API 请求失败（所有凭据已用尽）: 402 Payment Required quota"
    );
}

#[test]
fn other_payment_refusals_end_at_once() {
    let p = provider();
    let (mut call, _): (Call<'_>, _) = p.call_api("{}", 2);
    acquire(&mut call, 1);
    refuse(&mut call, 402, "card");
    assert_eq!(
        message(tell(&mut call, Event::Judged { yes: false })),
        "非流式 API 请求失败: 402 Payment Required card"
    );
}

#[test]
fn invalid_tokens_are_refreshed_once_per_credential() {
    let p = provider();
    let (mut call, _): (Call<'_>, _) = p.call_api("{}", 2);
    acquire(&mut call, 1);
    assert!(matches!(refuse(&mut call, 401, "expired"), Action::AskTokenInvalid));
    assert_eq!(call.body_in_question(), Some("expired"));
    assert!(matches!(
        tell(&mut call, Event::Judged { yes: true }),
        Action::ForceRefresh { id: 1 }
    ));
    assert!(matches!(tell(&mut call, Event::Refreshed { ok: true }), Action::Acquire));
    acquire(&mut call, 1);
    refuse(&mut call, 403, "expired");
    assert!(matches!(
        tell(&mut call, Event::Judged { yes: true }),
        Action::ReportFailure { id: 1 }
    ));
    assert!(matches!(tell(&mut call, Event::Availability { any: true }), Action::Acquire));
    acquire(&mut call, 2);
    refuse(&mut call, 401, "expired");
    assert!(matches!(
        tell(&mut call, Event::Judged { yes: true }),
        Action::ForceRefresh { id: 2 }
    ));
    assert!(matches!(
        tell(&mut call, Event::Refreshed { ok: false }),
        Action::ReportFailure { id: 2 }
    ));
    assert_eq!(
        message(tell(&mut call, Event::Availability { any: false })),
        "非流式 API 请求失败（所有凭据已用尽）: 401 Unauthorized expired"
    );
}

#[test]
fn rejected_credentials_with_a_valid_token_are_reported() {
    let p = provider();
    let (mut call, _): (Call<'_>, _) = p.call_api_stream("{}", 1);
    acquire(&mut call, 1);
    refuse(&mut call, 403, "forbidden");
    assert!(matches!(
        tell(&mut call, Event::Judged { yes: false }),
        Action::ReportFailure { id: 1 }
    ));
    assert!(call.body_in_question().is_none());
}

#[test]
fn refreshes_on_every_try_leave_no_error_behind() {
    let p = provider();
    let (mut call, _): (Call<'_>, _) = p.call_mcp(1);
    for id in 0..3u64 {
        acquire(&mut call, id);
        refuse(&mut call, 401, "expired");
        assert!(matches!(tell(&mut call, Event::Judged { yes: true }), Action::ForceRefresh { .. }));
        let action = tell(&mut call, Event::Refreshed { ok: true });
        if id == 2 {
            assert_eq!(message(action), "MCP 请求失败：已达到最大重试次数（3次）");
        } else {
            assert!(matches!(action, Action::Acquire));
        }
    }
}

#[test]
fn unexpected_events_are_told_apart() {
    let p = provider();
    let (call, _): (Call<'_>, _) = p.call_mcp(1);
    assert!(call.expects(&Event::AcquireFailed { error: String::new() }));
    assert!(!call.expects(&Event::Slept));
    assert!(!call.expects(&Event::Judged { yes: true }));
    assert!(!call.expects(&Event::Body { text: None }));
}

#[test]
fn sends_keep_to_the_settings_and_calls_end() {
    let p = provider_with(1, 1, 9);
    let (sent, events, end) = run_refused(p.call_api("{}", 1), &[1, 2, 3], 429, "slow down");
    assert_eq!(sent, vec![1, 1, 2, 2]);
    assert_eq!(events, 17);
    match end {
        Action::Fail { error: CallError::RateLimited(error) } => {
            assert_eq!(error.retry_after_seconds(), Some(1));
        }
        other => panic!("{:?}", other),
    }
}

#[test]
fn all_kinds_of_calls_take_the_same_course() {
    let p = provider();
    let (mut mcp, a): (Call<'_>, _) = p.call_mcp(1);
    let (mut api, b): (Call<'_>, _) = p.call_api("{}", 1);
    let (mut stream, c): (Call<'_>, _) = p.call_api_stream("{}", 1);
    assert_eq!(format!("{:?}", a), format!("{:?}", b));
    assert_eq!(format!("{:?}", a), format!("{:?}", c));
    for step in 0..5 {
        let event = || match step {
            0 => Event::Acquired { id: 4, endpoint: None },
            1 => Event::Responded { status: HttpStatus::from_u16(401).unwrap() },
            2 => Event::Body { text: Some("expired".to_string()) },
            3 => Event::Judged { yes: true },
            _ => Event::Refreshed { ok: false },
        };
        let a = tell(&mut mcp, event());
        let b = tell(&mut api, event());
        let c = tell(&mut stream, event());
        assert_eq!(format!("{:?}", a), format!("{:?}", b));
        assert_eq!(format!("{:?}", a), format!("{:?}", c));
    }
    let end = || Event::Availability { any: false };
    assert_eq!(
        message(tell(&mut mcp, end())),
        "MCP 请求失败（所有凭据已用尽）: 401 Unauthorized expired"
    );
    assert_eq!(
        message(tell(&mut api, end())),
        "非流式 API 请求失败（所有凭据已用尽）: 401 Unauthorized expired"
    );
    assert_eq!(
        message(tell(&mut stream, end())),
        "流式 API 请求失败（所有凭据已用尽）: 401 Unauthorized expired"
    );
}
