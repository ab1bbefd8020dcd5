use kiro_provider::backoff::{backoff_ms, delay_with_jitter, jitter_limit_ms};
use kiro_provider::call::{classify_refusal, max_tries};
use kiro_provider::clients::{same_proxy, ClientCache, ProxyConfig, TlsBackend};
use kiro_provider::error::{CallError, CallKind};
use kiro_provider::json::model_from_json;
use kiro_provider::protocol::Refusal;
use kiro_provider::provider::{KiroProvider, RateLimitSettings};
use kiro_provider::rate_limit::{RateLimitError, RateLimitReason, UpstreamRateLimitKind};
use kiro_provider::request::outgoing_request;
use kiro_provider::status::HttpStatus;
use kiro_provider::text::decimal_text;

fn settings() -> RateLimitSettings {
    RateLimitSettings {
        rate_limit_retries_per_credential: 2,
        rate_limit_cooldown_seconds: 60,
        suspicious_rate_limit_retries_per_credential: 0,
        suspicious_rate_limit_cooldown_seconds: 900,
        rate_limit_max_cooled_credentials_per_request: 2,
    }
}

fn provider(settings: RateLimitSettings) -> KiroProvider {
    KiroProvider::with_proxy(
        settings,
        TlsBackend::Rustls,
        None,
        vec!["ide".to_string(), "cli".to_string()],
        "cli".to_string(),
        |_, _, _| -> Result<(), ()> { Ok(()) },
    )
    .unwrap()
    .0
}

fn proxy(url: &str, username: Option<&str>) -> Option<ProxyConfig> {
    Some(ProxyConfig {
        url: url.to_string(),
        username: username.map(|u| u.to_string()),
        password: None,
    })
}

#[test]
fn test_classify_suspicious_rate_limit_body() {
    let body = "Due to suspicious activity, we are imposing temporary limits while we investigate.";
    assert_eq!(
        KiroProvider::classify_rate_limit_body(body),
        UpstreamRateLimitKind::Suspicious
    );
}

#[test]
fn test_classify_normal_rate_limit_body() {
    let body = r#"{"message":"Too many requests"}"#;
    assert_eq!(
        KiroProvider::classify_rate_limit_body(body),
        UpstreamRateLimitKind::Normal
    );
}

#[test]
fn each_phrase_alone_is_suspicious_in_any_case() {
    for body in [
        "SUSPICIOUS Activity",
        "there are Temporary Limits on your account",
        "please wait WHILE WE INVESTIGATE",
        "限流: temporary limits",
    ] {
        assert_eq!(
            KiroProvider::classify_rate_limit_body(body),
            UpstreamRateLimitKind::Suspicious
        );
    }
}

#[test]
fn near_misses_are_normal() {
    for body in ["", "suspicious", "suspicious  activity", "temporary limit", "while we investigat"] {
        assert_eq!(
            KiroProvider::classify_rate_limit_body(body),
            UpstreamRateLimitKind::Normal
        );
    }
}

#[test]
fn only_ascii_letters_are_folded() {
    // The dotted capital I is no ASCII letter.
    assert_eq!(
        KiroProvider::classify_rate_limit_body("susp\u{130}cious activity"),
        UpstreamRateLimitKind::Normal
    );
}

#[test]
fn kinds_have_labels_and_reasons() {
    assert_eq!(UpstreamRateLimitKind::Normal.as_log_label(), "normal");
    assert_eq!(UpstreamRateLimitKind::Suspicious.as_log_label(), "suspicious");
    assert_eq!(UpstreamRateLimitKind::Normal.reason(), RateLimitReason::Normal);
    assert_eq!(UpstreamRateLimitKind::Suspicious.reason(), RateLimitReason::Suspicious);
}

#[test]
fn rate_limit_error_keeps_what_it_is_given() {
    let error = RateLimitError::new("wait", Some(30));
    assert_eq!(error.message(), "wait");
    assert_eq!(error.retry_after_seconds(), Some(30));
    let error = RateLimitError::new("later".to_string(), None);
    assert_eq!(error.message(), "later");
    assert_eq!(error.retry_after_seconds(), None);
}

#[test]
fn rate_limit_errors_prefer_what_the_credentials_say() {
    let error = KiroProvider::all_credentials_rate_limit_error(Some(7), Some(60));
    assert_eq!(
        error.message(),
        "All available upstream credentials are currently rate limited."
    );
    assert_eq!(error.retry_after_seconds(), Some(7));
    let error = KiroProvider::per_request_rate_limit_error(None, Some(60));
    assert_eq!(
        error.message(),
        "Upstream rate limit protection is active for this request. Please retry later."
    );
    assert_eq!(error.retry_after_seconds(), Some(60));
    assert_eq!(
        KiroProvider::per_request_rate_limit_error(None, None).retry_after_seconds(),
        None
    );
}

#[test]
fn settings_are_read_per_kind() {
    let p = provider(settings());
    assert_eq!(p.retries_for_rate_limit_kind(UpstreamRateLimitKind::Normal), 2);
    assert_eq!(p.retries_for_rate_limit_kind(UpstreamRateLimitKind::Suspicious), 0);
    assert_eq!(p.cooldown_for_rate_limit_kind(UpstreamRateLimitKind::Normal), 60);
    assert_eq!(p.cooldown_for_rate_limit_kind(UpstreamRateLimitKind::Suspicious), 900);
    assert_eq!(p.rate_limit_max_cooled_credentials_per_request(), 2);
}

#[test]
fn zero_cooldowns_and_limits_count_as_one() {
    let p = provider(RateLimitSettings {
        rate_limit_retries_per_credential: 0,
        rate_limit_cooldown_seconds: 0,
        suspicious_rate_limit_retries_per_credential: 5,
        suspicious_rate_limit_cooldown_seconds: 0,
        rate_limit_max_cooled_credentials_per_request: 0,
    });
    assert_eq!(p.rate_limit_retries_per_credential(), 0);
    assert_eq!(p.suspicious_rate_limit_retries_per_credential(), 5);
    assert_eq!(p.rate_limit_cooldown(), 1);
    assert_eq!(p.suspicious_rate_limit_cooldown(), 1);
    assert_eq!(p.rate_limit_max_cooled_credentials_per_request(), 1);
}

#[test]
fn endpoints_are_found_by_name_or_default() {
    let p = provider(settings());
    assert!(matches!(p.endpoint_for::<()>(Some("ide")), Ok(0)));
    assert!(matches!(p.endpoint_for::<()>(Some("cli")), Ok(1)));
    assert!(matches!(p.endpoint_for::<()>(None), Ok(1)));
    match p.endpoint_for::<()>(Some("web")) {
        Err(error) => assert_eq!(error.message().unwrap(), "未知端点: web"),
        Ok(_) => panic!("an endpoint that is not registered was found"),
    }
}

#[test]
fn model_is_read_from_the_request() {
    let body = r#"{"conversationState":{"currentMessage":{"userInputMessage":{"modelId":"model-4.5"}}}}"#;
    assert_eq!(
        KiroProvider::extract_model_from_request(body),
        Some("model-4.5".to_string())
    );
}

#[test]
fn requests_without_a_model_name_none() {
    for body in [
        "",
        "not json",
        "[]",
        "{}",
        r#"{"conversationState":[]}"#,
        r#"{"conversationState":{"currentMessage":{"userInputMessage":{}}}}"#,
        r#"{"conversationState":{"currentMessage":{"userInputMessage":{"modelId":5}}}}"#,
        r#"{"conversationState":{"currentMessage":{"userInputMessage":{"modelId":null}}}}"#,
        r#"{"conversationState":{"currentMessage":{"modelId":"m"}}}"#,
        r#"{"conversationState":{"currentMessage":{"userInputMessage":{"modelId":"m"}}}} x"#,
    ] {
        assert_eq!(KiroProvider::extract_model_from_request(body), None);
    }
}

#[test]
fn model_is_read_from_a_document() {
    let json: serde_json::Value = serde_json::from_str(
        r#"{"conversationState":{"currentMessage":{"userInputMessage":{"modelId":"m"}}}}"#,
    )
    .unwrap();
    assert_eq!(model_from_json(&json), Some("m".to_string()));
    assert_eq!(model_from_json(&serde_json::Value::Null), None);
}

#[test]
fn backoff_doubles_up_to_two_seconds() {
    let expected: [u64; 8] = [200, 400, 800, 1600, 2000, 2000, 2000, 2000];
    for (attempt, ms) in expected.iter().enumerate() {
        assert_eq!(backoff_ms(attempt), *ms);
    }
    assert_eq!(backoff_ms(usize::MAX), 2000);
    assert_eq!(jitter_limit_ms(0), 50);
    assert_eq!(jitter_limit_ms(9), 500);
}

#[test]
fn jitter_is_added_without_overflow() {
    assert_eq!(delay_with_jitter(1, 33), 433);
    assert_eq!(delay_with_jitter(0, u64::MAX), u64::MAX);
    assert_eq!(delay_with_jitter(0, u64::MAX - 200), u64::MAX);
}

#[test]
fn delays_stay_in_their_range_and_vary() {
    let mut seen: Vec<u64> = Vec::new();
    for _ in 0..500 {
        let ms = KiroProvider::retry_delay(5);
        assert!(2000 <= ms && ms <= 2500);
        if !seen.contains(&ms) {
            seen.push(ms);
        }
    }
    assert!(seen.len() > 10);
}

#[test]
fn statuses_have_three_digits() {
    assert!(HttpStatus::from_u16(99).is_none());
    assert!(HttpStatus::from_u16(1000).is_none());
    assert_eq!(HttpStatus::from_u16(100).unwrap().as_u16(), 100);
    assert_eq!(HttpStatus::from_u16(999).unwrap().as_u16(), 999);
}

#[test]
fn statuses_agree_with_the_http_crate() {
    for code in 100..1000u16 {
        let ours = HttpStatus::from_u16(code).unwrap();
        let theirs = reqwest::StatusCode::from_u16(code).unwrap();
        assert_eq!(ours.is_success(), theirs.is_success());
        assert_eq!(ours.is_client_error(), theirs.is_client_error());
        assert_eq!(ours.is_server_error(), theirs.is_server_error());
        assert_eq!(ours.line(), theirs.to_string());
    }
    assert_eq!(HttpStatus::from_u16(429).unwrap().line(), "429 Too Many Requests");
    assert_eq!(HttpStatus::from_u16(799).unwrap().line(), "799 <unknown status code>");
}

#[test]
fn refusals_are_told_apart_by_status() {
    let cases: [(u16, Refusal); 14] = [
        (429, Refusal::RateLimit),
        (402, Refusal::Payment),
        (401, Refusal::Credential),
        (403, Refusal::Credential),
        (400, Refusal::Request),
        (404, Refusal::Request),
        (422, Refusal::Request),
        (499, Refusal::Request),
        (408, Refusal::Transient),
        (500, Refusal::Transient),
        (599, Refusal::Transient),
        (302, Refusal::Transient),
        (101, Refusal::Transient),
        (600, Refusal::Transient),
    ];
    for (code, refusal) in cases {
        assert_eq!(classify_refusal(HttpStatus::from_u16(code).unwrap()), refusal);
    }
}

#[test]
fn tries_are_three_per_credential_up_to_nine() {
    assert_eq!(max_tries(0), 0);
    assert_eq!(max_tries(1), 3);
    assert_eq!(max_tries(2), 6);
    assert_eq!(max_tries(3), 9);
    assert_eq!(max_tries(4), 9);
    assert_eq!(max_tries(usize::MAX), 9);
}

#[test]
fn numerals_are_decimal() {
    assert_eq!(decimal_text(0), "0");
    assert_eq!(decimal_text(9), "9");
    assert_eq!(decimal_text(10), "10");
    assert_eq!(decimal_text(1234567890), "1234567890");
    assert_eq!(decimal_text(usize::MAX), usize::MAX.to_string());
}

#[test]
fn errors_have_messages() {
    let status = HttpStatus::from_u16(403).unwrap();
    let mcp: CallError<()> =
        CallError::Refused { call: CallKind::Mcp, status, body: "no".to_string() };
    assert_eq!(mcp.message().unwrap(), "MCP 请求失败: 403 Forbidden no");
    let used_up: CallError<()> = CallError::CredentialsUsedUp {
        call: CallKind::Api { stream: true },
        status,
        body: "no".to_string(),
    };
    assert_eq!(
        used_up.message().unwrap(),
        "流式 API 请求失败（所有凭据已用尽）: 403 Forbidden no"
    );
    let out: CallError<()> =
        CallError::OutOfTries { call: CallKind::Api { stream: false }, max_retries: 9 };
    assert_eq!(out.message().unwrap(), "非流式 API 请求失败：已达到最大重试次数（9次）");
    let limited: CallError<()> = CallError::RateLimited(RateLimitError::new("slow", None));
    assert_eq!(limited.message().unwrap(), "slow");
    assert!(CallError::Outside(()).message().is_none());
}

#[test]
fn proxies_are_compared_by_what_they_say() {
    assert!(same_proxy(&None, &None));
    assert!(same_proxy(&proxy("http://a", Some("u")), &proxy("http://a", Some("u"))));
    assert!(!same_proxy(&proxy("http://a", Some("u")), &proxy("http://a", None)));
    assert!(!same_proxy(&proxy("http://a", None), &proxy("http://b", None)));
    assert!(!same_proxy(&proxy("http://a", None), &None));
}

fn with_client(
    proxy: Option<ProxyConfig>,
    built: Result<u32, &'static str>,
) -> Result<(KiroProvider, ClientCache<u32>), &'static str> {
    let expected = proxy.clone();
    KiroProvider::with_proxy(
        settings(),
        TlsBackend::NativeTls,
        proxy,
        vec!["cli".to_string()],
        "cli".to_string(),
        |p, seconds, tls| {
            assert!(same_proxy(p, &expected));
            assert_eq!(seconds, 720);
            assert_eq!(tls, TlsBackend::NativeTls);
            built
        },
    )
}

#[test]
fn providers_start_with_the_client_of_their_proxy() {
    let (provider, cache) = with_client(proxy("http://a", Some("u")), Ok(1)).unwrap();
    assert!(same_proxy(provider.global_proxy(), &proxy("http://a", Some("u"))));
    assert_eq!(cache.get(&proxy("http://a", Some("u"))), Some(&1));
    assert_eq!(cache.get(&None), None);
    assert_eq!(with_client(None, Err("no tls")).err(), Some("no tls"));
}

#[test]
fn clients_are_shared_per_proxy() {
    let (provider, mut cache) = with_client(None, Ok(1)).unwrap();
    let again = provider
        .client_for(&mut cache, None, |_, _, _| -> Result<u32, ()> { panic!("built twice") });
    assert_eq!(again, Ok(1));
    let other = provider.client_for(
        &mut cache,
        proxy("http://a", None),
        |p, seconds, tls| -> Result<u32, ()> {
            assert!(same_proxy(p, &proxy("http://a", None)));
            assert_eq!(seconds, 720);
            assert_eq!(tls, TlsBackend::NativeTls);
            Ok(2)
        },
    );
    assert_eq!(other, Ok(2));
    assert_eq!(cache.get(&proxy("http://a", None)), Some(&2));
    assert_eq!(cache.get(&None), Some(&1));
    assert_eq!(cache.get(&proxy("http://b", None)), None);
    cache.insert(None, 5);
    assert_eq!(cache.get(&None), Some(&5));
    assert_eq!(cache.get(&proxy("http://a", None)), Some(&2));
}

#[test]
fn clients_that_cannot_be_built_are_not_kept() {
    let (provider, mut cache) = with_client(None, Ok(1)).unwrap();
    let failed = provider
        .client_for(&mut cache, proxy("bad", None), |_, _, _| -> Result<u32, &str> { Err("bad") });
    assert_eq!(failed, Err("bad"));
    assert_eq!(cache.get(&proxy("bad", None)), None);
}

#[test]
fn requests_go_out_as_json_on_closing_connections() {
    let request = outgoing_request("https://a/b".to_string(), "{}".to_string());
    assert_eq!(request.url, "https://a/b");
    assert_eq!(request.body, "{}");
    assert_eq!(
        request.headers,
        vec![("content-type", "application/json"), ("Connection", "close")]
    );
}
