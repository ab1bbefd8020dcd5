//! What callers can rely on: how the results of calls relate to what was handed in, and to the
//! results of other calls.
use crate::backoff::{
    backoff_doubles_up_to_the_limit, backoff_ms, delay_with_jitter, jitter_limit_ms,
    jitter_reaches_a_quarter, waiting_times_in_milliseconds,
};
use crate::call::{classify_refusal, max_tries, Action, Event, RetryCall};
use crate::clients::{
    proxies_differ_in_each_part, same_proxy, ClientCache, ProxyConfig, TlsBackend,
};
use crate::conduct::{
    calls_stay_what_they_are, counters_count_actions, events_belong_to_their_phases,
    statuses_tell_what_to_do,
};
use crate::error::{CallError, CallErrorView, CallKind};
use crate::json::{
    json_document, json_view, model_from_json, models_stand_in_nested_objects, Json,
};
use crate::protocol::{PhaseView, Refusal};
use crate::provider::{KiroProvider, RateLimitSettings};
use crate::rate_limit::{
    three_phrases_are_suspicious, RateLimitError, RateLimitReason, UpstreamRateLimitKind,
};
use crate::request::{common_headers, header_texts, outgoing_request, OutgoingRequest};
use crate::status::{
    first_digits_tell_classes, reason_phrase, status_lines_start_with_the_code, HttpStatus,
};
use crate::text::{
    ascii_lower_chars, contains_chars, decimal_text, found_parts_are_there,
    lower_case_changes_capitals_only, numeral_value, numerals_read_back, occurs_in,
    parts_are_found,
};
use vstd::prelude::*;

verus! {

/// A number is shown by digits that stand for it.
pub proof fn shown_numbers_read_back(n: usize, text: String)
    requires
        call_ensures(decimal_text, (n,), text),
    ensures
        numeral_value(text@) == n,
        forall|i: int| 0 <= i < text@.len() ==> '0' <= #[trigger] text@[i] <= '9',
        text@.len() > 1 ==> text@[0] != '0',
{
    numerals_read_back(n as nat);
}

/// Lower case moves the letters `A` to `Z` by 32 places and leaves all else alone.
pub proof fn lowered_texts_differ_in_capitals(s: &str, chars: Vec<char>, i: int)
    requires
        call_ensures(ascii_lower_chars, (s,), chars),
    ensures
        chars@.len() == s@.len(),
        0 <= i < s@.len() && 'A' <= s@[i] <= 'Z' ==> chars@[i] as int == s@[i] as int + 32,
        0 <= i < s@.len() && !('A' <= s@[i] <= 'Z') ==> chars@[i] == s@[i],
{
    lower_case_changes_capitals_only(s@);
}

/// A search finds what stands somewhere in the characters, and nothing else.
pub proof fn searches_find_parts(
    haystack: Vec<char>,
    needle: &str,
    found: bool,
    before: Seq<char>,
    behind: Seq<char>,
)
    requires
        call_ensures(contains_chars, (&haystack, needle), found),
    ensures
        haystack@ == before + needle@ + behind ==> found,
        found ==> exists|b: Seq<char>, e: Seq<char>| haystack@ == #[trigger] (b + needle@ + e),
{
    parts_are_found(before, needle@, behind);
    if found {
        found_parts_are_there(haystack@, needle@);
    }
}

/// Every number of three digits makes a status, and no other does; the status gives the number
/// back.
pub proof fn statuses_give_back_their_code(
    code: u16,
    made: Option<HttpStatus>,
    status: HttpStatus,
    again: u16,
)
    requires
        call_ensures(HttpStatus::from_u16, (code,), made),
        call_ensures(HttpStatus::as_u16, (&status,), again),
    ensures
        made is Some <==> 100 <= code <= 999,
        made == Some(status) ==> again == code,
        100 <= again <= 999,
{
}

/// A status tells success, blame on the request and blame on the server by its first digit.
pub proof fn statuses_tell_their_class(
    status: HttpStatus,
    code: u16,
    success: bool,
    client_error: bool,
    server_error: bool,
)
    requires
        call_ensures(HttpStatus::as_u16, (&status,), code),
        call_ensures(HttpStatus::is_success, (&status,), success),
        call_ensures(HttpStatus::is_client_error, (&status,), client_error),
        call_ensures(HttpStatus::is_server_error, (&status,), server_error),
    ensures
        success <==> code / 100 == 2,
        client_error <==> code / 100 == 4,
        server_error <==> code / 100 == 5,
{
    first_digits_tell_classes(code);
}

/// A status is shown by its number, a space and its reason phrase.
pub proof fn statuses_show_their_code(status: HttpStatus, code: u16, line: String)
    requires
        call_ensures(HttpStatus::as_u16, (&status,), code),
        call_ensures(HttpStatus::line, (&status,), line),
    ensures
        numeral_value(line@.take(3)) == code,
        line@[3] == ' ',
        line@.skip(4) == reason_phrase(code),
{
    status_lines_start_with_the_code(code);
}

/// Each status calls for what its number stands for.
pub proof fn refusals_go_by_their_code(status: HttpStatus, code: u16, refusal: Refusal)
    requires
        call_ensures(HttpStatus::as_u16, (&status,), code),
        call_ensures(classify_refusal, (status,), refusal),
    ensures
        refusal is RateLimit <==> code == 429,
        refusal is Payment <==> code == 402,
        refusal is Credential <==> code == 401 || code == 403,
        refusal is Transient <==> code == 408 || code / 100 != 4,
{
    statuses_tell_what_to_do(code);
}

/// There are three tries for each credential, or nine where that is fewer.
pub proof fn tries_are_three_or_nine(total_credentials: usize, max: usize)
    requires
        call_ensures(max_tries, (total_credentials,), max),
    ensures
        total_credentials <= 3 ==> max == 3 * total_credentials,
        total_credentials >= 3 ==> max == 9,
{
}

/// The first waiting time is 200 milliseconds; from one try to the next it doubles, but stays at
/// 2000 milliseconds once it is there.
pub proof fn waiting_times_double(attempt: usize, next: usize, ms: u64, next_ms: u64)
    requires
        call_ensures(backoff_ms, (attempt,), ms),
        call_ensures(backoff_ms, (next,), next_ms),
        next == attempt + 1,
    ensures
        attempt == 0 ==> ms == 200,
        200 <= ms <= 2000,
        ms < 1000 ==> next_ms == 2 * ms,
        ms >= 1000 ==> next_ms == 2000,
{
    waiting_times_in_milliseconds(attempt as nat);
    backoff_doubles_up_to_the_limit(attempt as nat);
}

/// The most jitter is a quarter of the waiting time, rounded down.
pub proof fn jitter_goes_up_to_a_quarter(attempt: usize, ms: u64, limit: u64)
    requires
        call_ensures(backoff_ms, (attempt,), ms),
        call_ensures(jitter_limit_ms, (attempt,), limit),
    ensures
        limit == ms / 4,
{
    jitter_reaches_a_quarter(attempt as nat);
}

/// Jitter is added to the waiting time; where the sum is too large it stays at the largest number.
pub proof fn jitter_is_added(attempt: usize, ms: u64, jitter: u64, delay: u64)
    requires
        call_ensures(backoff_ms, (attempt,), ms),
        call_ensures(delay_with_jitter, (attempt, jitter), delay),
    ensures
        ms + jitter <= u64::MAX ==> delay == ms + jitter,
        ms + jitter > u64::MAX ==> delay == u64::MAX,
{
}

/// A retry waits no less than the waiting time and no more than a quarter longer.
pub proof fn retries_wait_up_to_a_quarter_longer(attempt: usize, ms: u64, delay: u64)
    requires
        call_ensures(backoff_ms, (attempt,), ms),
        call_ensures(KiroProvider::retry_delay, (attempt,), delay),
    ensures
        ms <= delay,
        4 * delay <= 5 * ms,
{
    jitter_reaches_a_quarter(attempt as nat);
}

/// A body is classified by whether one of the three phrases stands in its lower case.
pub proof fn bodies_are_classified_by_three_phrases(
    body: &str,
    kind: UpstreamRateLimitKind,
    lowered: Vec<char>,
)
    requires
        call_ensures(KiroProvider::classify_rate_limit_body, (body,), kind),
        call_ensures(ascii_lower_chars, (body,), lowered),
    ensures
        kind is Suspicious <==> {
            ||| occurs_in(lowered@, "suspicious activity"@)
            ||| occurs_in(lowered@, "temporary limits"@)
            ||| occurs_in(lowered@, "while we investigate"@)
        },
{
    three_phrases_are_suspicious(body@);
}

/// Each kind of limit is logged and recorded under its own name.
pub proof fn kinds_are_logged_and_recorded(
    kind: UpstreamRateLimitKind,
    label: &'static str,
    reason: RateLimitReason,
)
    requires
        call_ensures(UpstreamRateLimitKind::as_log_label, (kind,), label),
        call_ensures(UpstreamRateLimitKind::reason, (kind,), reason),
    ensures
        kind is Normal ==> label@ == "normal"@ && reason is Normal,
        kind is Suspicious ==> label@ == "suspicious"@ && reason is Suspicious,
{
}

/// A rate limit error gives back the message and the time that it was made with.
pub proof fn rate_limit_errors_give_back_what_they_are_made_with(
    message: &'static str,
    seconds: Option<u64>,
    error: RateLimitError,
    again: Option<u64>,
    text: &str,
)
    requires
        call_ensures(RateLimitError::new::<&'static str>, (message, seconds), error),
        call_ensures(RateLimitError::retry_after_seconds, (&error,), again),
        call_ensures(RateLimitError::message, (&error,), text),
    ensures
        again == seconds,
        text@ == message@,
{
}

/// Both rate limit errors tell callers to wait for just as long as the credentials say, or else
/// for the fallback; they differ in what they say of the reason.
pub proof fn rate_limit_errors_tell_how_long_to_wait(
    retry_after: Option<u64>,
    fallback: Option<u64>,
    all: RateLimitError,
    one: RateLimitError,
)
    requires
        call_ensures(
            KiroProvider::all_credentials_rate_limit_error,
            (retry_after, fallback),
            all,
        ),
        call_ensures(KiroProvider::per_request_rate_limit_error, (retry_after, fallback), one),
    ensures
        retry_after is Some ==> all@.retry_after_seconds == retry_after
            && one@.retry_after_seconds == retry_after,
        retry_after is None ==> all@.retry_after_seconds == fallback && one@.retry_after_seconds
            == fallback,
        all@.message == "All available upstream credentials are currently rate limited."@,
        one@.message
            == "Upstream rate limit protection is active for this request. Please retry later."@,
{
}

/// A request goes out with the address and the body that it was made for, as JSON and on a
/// connection that is closed behind it.
pub proof fn requests_go_out_as_they_are(url: String, body: String, request: OutgoingRequest)
    requires
        call_ensures(outgoing_request, (url, body), request),
    ensures
        request.url@ == url@,
        request.body@ == body@,
        request.headers@.len() == 2,
        request.headers@[0].0@ == "content-type"@,
        request.headers@[0].1@ == "application/json"@,
        request.headers@[1].0@ == "Connection"@,
        request.headers@[1].1@ == "close"@,
{
    let texts = header_texts(request.headers@);
    assert(texts == common_headers());
    assert(texts.len() == 2);
    assert(texts[0] == (request.headers@[0].0@, request.headers@[0].1@));
    assert(texts[1] == (request.headers@[1].0@, request.headers@[1].1@));
    assert(texts[0] == ("content-type"@, "application/json"@));
    assert(texts[1] == ("Connection"@, "close"@));
}

/// Two proxies are the same if address, user name and password are, and no proxy is the same as
/// none.
pub proof fn proxies_are_compared_in_each_part(
    a: ProxyConfig,
    b: ProxyConfig,
    same: bool,
    none: bool,
)
    requires
        call_ensures(same_proxy, (&Some(a), &Some(b)), same),
        call_ensures(same_proxy, (&Some(a), &None), none),
    ensures
        same <==> {
            &&& a.url@ == b.url@
            &&& a.username is Some <==> b.username is Some
            &&& a.username is Some ==> a.username->0@ == b.username->0@
            &&& a.password is Some <==> b.password is Some
            &&& a.password is Some ==> a.password->0@ == b.password->0@
        },
        !none,
{
    proxies_differ_in_each_part(a, b);
}

/// A cache that was made with a client hands out this client for its proxy, and none for any
/// other proxy.
pub proof fn caches_hand_out_the_client_of_the_proxy<C>(
    proxy: Option<ProxyConfig>,
    client: C,
    cache: ClientCache<C>,
    other: Option<ProxyConfig>,
    same: bool,
    found: Option<&C>,
)
    requires
        call_ensures(ClientCache::<C>::with_client, (proxy, client), cache),
        call_ensures(same_proxy, (&proxy, &other), same),
        call_ensures(ClientCache::<C>::get, (&cache, &other), found),
    ensures
        same ==> found == Some(&client),
        !same ==> found is None,
{
}

/// The model of a document is the text in its four nested objects, and the model of a request
/// that of its document.
pub proof fn models_are_read_from_documents(
    json: serde_json::Value,
    named: Option<String>,
    body: &str,
    model: Option<String>,
)
    requires
        call_ensures(model_from_json, (&json,), named),
        call_ensures(KiroProvider::extract_model_from_request, (body,), model),
    ensures
        named matches Some(text) ==> (json_view(json) matches Json::Object(top)
            && top.contains_key("conversationState"@) && (top["conversationState"@] matches Json::Object(
            state,
        ) && state.contains_key("currentMessage"@) && (state["currentMessage"@] matches Json::Object(
            message,
        ) && message.contains_key("userInputMessage"@) && (message["userInputMessage"@] matches Json::Object(
            input,
        ) && input.contains_key("modelId"@) && input["modelId"@] == Json::Text(text@))))),
        json_document(body@) is None ==> model is None,
        json_document(body@) == Some(json_view(json)) ==> (model is Some <==> named is Some),
        json_document(body@) == Some(json_view(json)) && model is Some ==> model->0@ == named->0@,
{
    if let Some(text) = named {
        models_stand_in_nested_objects(json_view(json), text@);
    }
}

/// A document with a text in its four nested objects has that text for its model.
pub proof fn nested_models_are_read(
    json: serde_json::Value,
    named: Option<String>,
    top: Map<Seq<char>, Json>,
    state: Map<Seq<char>, Json>,
    message: Map<Seq<char>, Json>,
    input: Map<Seq<char>, Json>,
    text: Seq<char>,
)
    requires
        call_ensures(model_from_json, (&json,), named),
        json_view(json) == Json::Object(top),
        top.contains_key("conversationState"@),
        top["conversationState"@] == Json::Object(state),
        state.contains_key("currentMessage"@),
        state["currentMessage"@] == Json::Object(message),
        message.contains_key("userInputMessage"@),
        message["userInputMessage"@] == Json::Object(input),
        input.contains_key("modelId"@),
        input["modelId"@] == Json::Text(text),
    ensures
        named is Some,
        named->0@ == text,
{
    models_stand_in_nested_objects(json_view(json), text);
}

/// A provider goes by the settings that it was made with: retries as they are, cooldowns and
/// credentials to be set aside at least one. What a machine cannot hold counts as two retries, no
/// retry after a suspicious limit, and two credentials.
pub proof fn providers_go_by_their_settings<
    C,
    E,
    F: FnOnce(&Option<ProxyConfig>, u64, TlsBackend) -> Result<C, E>,
>(
    settings: RateLimitSettings,
    tls_backend: TlsBackend,
    proxy: Option<ProxyConfig>,
    endpoints: Vec<String>,
    default_endpoint: String,
    build: F,
    made: Result<(KiroProvider, ClientCache<C>), E>,
    retries: usize,
    suspicious_retries: usize,
    cooldown: u64,
    suspicious_cooldown: u64,
    most: usize,
)
    requires
        call_ensures(
            KiroProvider::with_proxy::<C, E, F>,
            (settings, tls_backend, proxy, endpoints, default_endpoint, build),
            made,
        ),
        made is Ok,
        call_ensures(
            KiroProvider::rate_limit_retries_per_credential,
            (&made->Ok_0.0,),
            retries,
        ),
        call_ensures(
            KiroProvider::suspicious_rate_limit_retries_per_credential,
            (&made->Ok_0.0,),
            suspicious_retries,
        ),
        call_ensures(KiroProvider::rate_limit_cooldown, (&made->Ok_0.0,), cooldown),
        call_ensures(
            KiroProvider::suspicious_rate_limit_cooldown,
            (&made->Ok_0.0,),
            suspicious_cooldown,
        ),
        call_ensures(
            KiroProvider::rate_limit_max_cooled_credentials_per_request,
            (&made->Ok_0.0,),
            most,
        ),
    ensures
        retries == settings.rate_limit_retries_per_credential
            || settings.rate_limit_retries_per_credential > usize::MAX && retries == 2,
        suspicious_retries == settings.suspicious_rate_limit_retries_per_credential
            || settings.suspicious_rate_limit_retries_per_credential > usize::MAX
            && suspicious_retries == 0,
        cooldown == settings.rate_limit_cooldown_seconds || settings.rate_limit_cooldown_seconds
            == 0 && cooldown == 1,
        suspicious_cooldown == settings.suspicious_rate_limit_cooldown_seconds
            || settings.suspicious_rate_limit_cooldown_seconds == 0 && suspicious_cooldown == 1,
        most == settings.rate_limit_max_cooled_credentials_per_request
            || settings.rate_limit_max_cooled_credentials_per_request == 0 && most == 1
            || settings.rate_limit_max_cooled_credentials_per_request > usize::MAX && most == 2,
        cooldown >= 1,
        suspicious_cooldown >= 1,
        most >= 1,
{
}

/// The rules for a kind of limit are those for ordinary limits or those for suspicious ones.
pub proof fn kinds_go_by_their_own_rules(
    provider: KiroProvider,
    kind: UpstreamRateLimitKind,
    retries: usize,
    seconds: u64,
    ordinary: (usize, u64),
    suspicious: (usize, u64),
)
    requires
        call_ensures(KiroProvider::retries_for_rate_limit_kind, (&provider, kind), retries),
        call_ensures(KiroProvider::cooldown_for_rate_limit_kind, (&provider, kind), seconds),
        call_ensures(
            KiroProvider::rate_limit_retries_per_credential,
            (&provider,),
            ordinary.0,
        ),
        call_ensures(KiroProvider::rate_limit_cooldown, (&provider,), ordinary.1),
        call_ensures(
            KiroProvider::suspicious_rate_limit_retries_per_credential,
            (&provider,),
            suspicious.0,
        ),
        call_ensures(KiroProvider::suspicious_rate_limit_cooldown, (&provider,), suspicious.1),
    ensures
        kind is Normal ==> (retries, seconds) == ordinary,
        kind is Suspicious ==> (retries, seconds) == suspicious,
{
}

/// A provider keeps the proxy, the TLS backend and the endpoints that it was made with, in their
/// order.
pub proof fn providers_keep_what_they_are_made_with<
    C,
    E,
    F: FnOnce(&Option<ProxyConfig>, u64, TlsBackend) -> Result<C, E>,
>(
    settings: RateLimitSettings,
    tls_backend: TlsBackend,
    proxy: Option<ProxyConfig>,
    endpoints: Vec<String>,
    default_endpoint: String,
    build: F,
    made: Result<(KiroProvider, ClientCache<C>), E>,
    kept: &Option<ProxyConfig>,
    same: bool,
)
    requires
        call_ensures(
            KiroProvider::with_proxy::<C, E, F>,
            (settings, tls_backend, proxy, endpoints, default_endpoint, build),
            made,
        ),
        made is Ok,
        call_ensures(KiroProvider::global_proxy, (&made->Ok_0.0,), kept),
        call_ensures(same_proxy, (kept, &proxy), same),
    ensures
        same,
        made->Ok_0.0@.tls_backend == tls_backend,
        made->Ok_0.0@.default_endpoint == default_endpoint@,
        made->Ok_0.0@.endpoints.len() == endpoints@.len(),
        forall|i: int|
            0 <= i < endpoints@.len() ==> #[trigger] made->Ok_0.0@.endpoints[i] == endpoints@[i]@,
{
}

/// A provider is made exactly if its first client is: `build` gets the proxy, twelve minutes and
/// the TLS backend, its error is handed on, and its client is kept for the proxy.
pub proof fn providers_are_made_with_their_first_client<
    C,
    E,
    F: FnOnce(&Option<ProxyConfig>, u64, TlsBackend) -> Result<C, E>,
>(
    settings: RateLimitSettings,
    tls_backend: TlsBackend,
    proxy: Option<ProxyConfig>,
    endpoints: Vec<String>,
    default_endpoint: String,
    build: F,
    made: Result<(KiroProvider, ClientCache<C>), E>,
    outcome: Result<C, E>,
    found: Option<&C>,
)
    requires
        call_ensures(
            KiroProvider::with_proxy::<C, E, F>,
            (settings, tls_backend, proxy, endpoints, default_endpoint, build),
            made,
        ),
        forall|built: Result<C, E>|
            call_ensures(build, (&proxy, 720u64, tls_backend), built) ==> built == outcome,
        made is Ok ==> call_ensures(ClientCache::<C>::get, (&made->Ok_0.1, &proxy), found),
    ensures
        made is Ok <==> outcome is Ok,
        made is Ok ==> found == Some(&outcome->Ok_0),
        made is Err ==> made->Err_0 == outcome->Err_0,
{
}

/// A credential gets the endpoint with the name that it asks for, or the default endpoint where
/// it asks for none; where there is no such endpoint, the error tells the name.
pub proof fn endpoints_are_found_by_name<E>(
    provider: KiroProvider,
    requested: Option<&str>,
    endpoint: Result<usize, CallError<E>>,
)
    requires
        call_ensures(KiroProvider::endpoint_for::<E>, (&provider, requested), endpoint),
    ensures
        ({
            let name = match requested {
                Some(asked) => asked@,
                None => provider@.default_endpoint,
            };
            match endpoint {
                Ok(i) => i < provider@.endpoints.len() && provider@.endpoints[i as int] == name,
                Err(error) => !provider@.endpoints.contains(name) && error@ == (
                CallErrorView::<E>::UnknownEndpoint { name }),
            }
        }),
{
    let name = match requested {
        Some(asked) => asked@,
        None => provider@.default_endpoint,
    };
    provider@.endpoints.index_of_first_ensures(name);
}

/// A call to the API is for the model that its request names, streamed or not as it was asked
/// for; an MCP call is for none. With credentials at hand each starts by taking one.
pub proof fn calls_are_for_the_model_of_their_request<'a, E>(
    provider: KiroProvider,
    body: &str,
    total_credentials: usize,
    model: Option<String>,
    plain: (RetryCall<'a, E>, Action<E>),
    streamed: (RetryCall<'a, E>, Action<E>),
    mcp: (RetryCall<'a, E>, Action<E>),
)
    requires
        call_ensures(KiroProvider::extract_model_from_request, (body,), model),
        call_ensures(
            KiroProvider::call_api::<E>,
            (&provider, body, total_credentials),
            plain,
        ),
        call_ensures(
            KiroProvider::call_api_stream::<E>,
            (&provider, body, total_credentials),
            streamed,
        ),
        call_ensures(KiroProvider::call_mcp::<E>, (&provider, total_credentials), mcp),
    ensures
        plain.0@.model is Some <==> model is Some,
        model is Some ==> plain.0@.model == Some(model->0@),
        streamed.0@.model == plain.0@.model,
        mcp.0@.model is None,
        plain.0@.call == (CallKind::Api { stream: false }),
        streamed.0@.call == (CallKind::Api { stream: true }),
        mcp.0@.call is Mcp,
        plain.0@.provider == provider@ && streamed.0@.provider == provider@ && mcp.0@.provider
            == provider@,
        total_credentials > 0 ==> plain.1 is Acquire && streamed.1 is Acquire && mcp.1 is Acquire,
        total_credentials == 0 ==> plain.1 is Fail && streamed.1 is Fail && mcp.1 is Fail,
{
}

/// A started call gives back what it was started with, and is at its first try.
pub proof fn started_calls_give_back_what_they_are_started_with<'a, E>(
    provider: &'a KiroProvider,
    call: CallKind,
    model: Option<String>,
    total_credentials: usize,
    started: (RetryCall<'a, E>, Action<E>),
    kind: CallKind,
    attempt: usize,
    max_retries: usize,
    asked: Option<&str>,
    body: Option<&str>,
)
    requires
        call_ensures(
            RetryCall::<'a, E>::start,
            (provider, call, model, total_credentials),
            started,
        ),
        call_ensures(RetryCall::<'a, E>::kind, (&started.0,), kind),
        call_ensures(RetryCall::<'a, E>::attempt, (&started.0,), attempt),
        call_ensures(RetryCall::<'a, E>::max_retries, (&started.0,), max_retries),
        call_ensures(RetryCall::<'a, E>::model, (&started.0,), asked),
        call_ensures(RetryCall::<'a, E>::body_in_question, (&started.0,), body),
    ensures
        kind == call,
        attempt == 0,
        total_credentials <= 3 ==> max_retries == 3 * total_credentials,
        total_credentials >= 3 ==> max_retries == 9,
        asked is Some <==> model is Some,
        model is Some ==> asked->0@ == model->0@,
        body is None,
        started.0@.provider == provider@,
        total_credentials > 0 <==> started.1 is Acquire,
        total_credentials == 0 <==> started.1 is Fail,
{
}

/// Whether an event can come now is told by the phase alone: by what the call waits for.
pub proof fn calls_expect_what_they_wait_for<'a, E>(
    call: RetryCall<'a, E>,
    event: Event<E>,
    yes: bool,
)
    requires
        call_ensures(RetryCall::<'a, E>::expects, (&call, &event), yes),
    ensures
        yes <==> match event {
            Event::Acquired { .. } => call@.phase is Acquiring,
            Event::AcquireFailed { .. } => call@.phase is Acquiring,
            Event::RetryAfter { .. } => call@.phase is CheckingLimits || call@.phase is AllLimited
                || call@.phase is Cooled || call@.phase is Protecting,
            Event::Availability { .. } => call@.phase is RejectingEndpoint
                || call@.phase is Cooling || call@.phase is ReportingRefusal,
            Event::SendFailed { .. } => call@.phase is Sending,
            Event::Responded { .. } => call@.phase is Sending,
            Event::Body { .. } => call@.phase is ReadingBody,
            Event::Judged { .. } => call@.phase is JudgingQuota || call@.phase is JudgingToken,
            Event::Refreshed { .. } => call@.phase is Refreshing,
            Event::Slept => call@.phase is CredentialPause || call@.phase is Pausing,
        },
{
    events_belong_to_their_phases(call@, event@);
}

/// The body in question is the one that the call has in mind while the endpoint is asked.
pub proof fn questions_show_the_body<'a, E>(call: RetryCall<'a, E>, body: Option<&str>)
    requires
        call_ensures(RetryCall::<'a, E>::body_in_question, (&call,), body),
    ensures
        body is Some <==> call@.phase is JudgingQuota || call@.phase is JudgingToken,
        call@.phase matches PhaseView::JudgingQuota { body: read, .. } ==> body->0@ == read,
        call@.phase matches PhaseView::JudgingToken { body: read, .. } ==> body->0@ == read,
{
}

/// A refusal is told by the name of the call, what has failed, the status and the whole body.
pub proof fn refusals_are_shown_in_full<E>(
    call: CallKind,
    status: HttpStatus,
    body: String,
    label: &'static str,
    line: String,
    refused: Option<String>,
    used_up: Option<String>,
)
    requires
        call_ensures(CallKind::label, (call,), label),
        call_ensures(HttpStatus::line, (&status,), line),
        call_ensures(
            CallError::<E>::message,
            (&(CallError::<E>::Refused { call, status, body }),),
            refused,
        ),
        call_ensures(
            CallError::<E>::message,
            (&(CallError::<E>::CredentialsUsedUp { call, status, body }),),
            used_up,
        ),
    ensures
        refused is Some,
        used_up is Some,
        refused->0@ == label@ + " 请求失败: "@ + line@ + " "@ + body@,
        used_up->0@ == label@ + " 请求失败（所有凭据已用尽）: "@ + line@ + " "@ + body@,
{
}

/// A rate limit is told by its own message, an unknown endpoint by its name, and the end of all
/// tries by their number. An error from outside has no message here.
pub proof fn other_errors_are_shown<E>(
    limit: RateLimitError,
    name: String,
    call: CallKind,
    max_retries: usize,
    outside: E,
    label: &'static str,
    numeral: String,
    messages: (Option<String>, Option<String>, Option<String>, Option<String>),
)
    requires
        call_ensures(CallKind::label, (call,), label),
        call_ensures(decimal_text, (max_retries,), numeral),
        call_ensures(
            CallError::<E>::message,
            (&CallError::<E>::RateLimited(limit),),
            messages.0,
        ),
        call_ensures(
            CallError::<E>::message,
            (&(CallError::<E>::UnknownEndpoint { name }),),
            messages.1,
        ),
        call_ensures(
            CallError::<E>::message,
            (&(CallError::<E>::OutOfTries { call, max_retries }),),
            messages.2,
        ),
        call_ensures(CallError::<E>::message, (&CallError::Outside(outside),), messages.3),
    ensures
        messages.0 is Some,
        messages.0->0@ == limit@.message,
        messages.1 is Some,
        messages.1->0@ == "未知端点: "@ + name@,
        messages.2 is Some,
        messages.2->0@ == label@ + " 请求失败：已达到最大重试次数（"@ + numeral@ + "次）"@,
        messages.3 is None,
{
}

/// Messages name MCP calls, streamed calls and other calls each in their own way.
pub proof fn calls_are_shown_by_name(call: CallKind, label: &'static str)
    requires
        call_ensures(CallKind::label, (call,), label),
    ensures
        call is Mcp ==> label@ == "MCP"@,
        call == (CallKind::Api { stream: true }) ==> label@ == "流式 API"@,
        call == (CallKind::Api { stream: false }) ==> label@ == "非流式 API"@,
{
}

/// A step that is taken does what the call is to do on this event, and leaves it where the event
/// takes it.
pub proof fn steps_take_their_course<'a, E>(
    call: &mut RetryCall<'a, E>,
    event: Event<E>,
    action: Action<E>,
)
    requires
        call_ensures(RetryCall::<'a, E>::step, (call, event), action),
    ensures
        action@ == old(call)@.step(event@).1,
        final(call)@ == old(call)@.step(event@).0,
{
}

/// Steps leave alone what a call is for: its kind, its model and the number of its tries. A step
/// that takes a credential is a new try, and no other is.
pub proof fn steps_leave_the_call_what_it_is<'a, E>(
    call: &mut RetryCall<'a, E>,
    event: Event<E>,
    action: Action<E>,
    kinds: (CallKind, CallKind),
    attempts: (usize, usize),
    limits: (usize, usize),
    models: (Option<&str>, Option<&str>),
)
    requires
        old(call)@.expects(event@),
        call_ensures(RetryCall::<'a, E>::step, (call, event), action),
        call_ensures(RetryCall::<'a, E>::kind, (&*old(call),), kinds.0),
        call_ensures(RetryCall::<'a, E>::kind, (&*final(call),), kinds.1),
        call_ensures(RetryCall::<'a, E>::attempt, (&*old(call),), attempts.0),
        call_ensures(RetryCall::<'a, E>::attempt, (&*final(call),), attempts.1),
        call_ensures(RetryCall::<'a, E>::max_retries, (&*old(call),), limits.0),
        call_ensures(RetryCall::<'a, E>::max_retries, (&*final(call),), limits.1),
        call_ensures(RetryCall::<'a, E>::model, (&*old(call),), models.0),
        call_ensures(RetryCall::<'a, E>::model, (&*final(call),), models.1),
    ensures
        kinds.1 == kinds.0,
        limits.1 == limits.0,
        models.0 is Some <==> models.1 is Some,
        models.0 is Some ==> models.1->0@ == models.0->0@,
        action is Acquire ==> attempts.1 == attempts.0 + 1,
        action !is Acquire ==> attempts.1 == attempts.0,
{
    calls_stay_what_they_are(call@, event@);
    counters_count_actions(call@, event@);
}

/// A client that is kept is handed out for its proxy from then on; the clients of all other
/// proxies stay.
pub proof fn kept_clients_are_handed_out<C>(
    cache: &mut ClientCache<C>,
    proxy: Option<ProxyConfig>,
    client: C,
    other: Option<ProxyConfig>,
    same: bool,
    before: Option<&C>,
    after: Option<&C>,
)
    requires
        call_ensures(ClientCache::<C>::insert, (cache, proxy, client), ()),
        call_ensures(same_proxy, (&proxy, &other), same),
        call_ensures(ClientCache::<C>::get, (&*old(cache), &other), before),
        call_ensures(ClientCache::<C>::get, (&*final(cache), &other), after),
    ensures
        same ==> after == Some(&client),
        !same ==> after == before,
{
}

/// A client that is kept for a proxy is used, and the cache stays as it is. Where none is kept,
/// `build` gets the proxy, twelve minutes and the TLS backend: its client is used and kept for
/// the proxy, or its error handed on and nothing kept. No other proxy is touched.
pub proof fn clients_are_built_once<
    C: Clone,
    E,
    F: FnOnce(&Option<ProxyConfig>, u64, TlsBackend) -> Result<C, E>,
>(
    cache: &mut ClientCache<C>,
    proxy: Option<ProxyConfig>,
    tls_backend: TlsBackend,
    build: F,
    outcome: Result<C, E>,
    result: Result<C, E>,
    before: Option<&C>,
    after: Option<&C>,
    other: Option<ProxyConfig>,
    same: bool,
    others: (Option<&C>, Option<&C>),
)
    requires
        call_ensures(
            ClientCache::<C>::client_for::<E, F>,
            (cache, proxy, tls_backend, build),
            result,
        ),
        forall|built: Result<C, E>|
            call_ensures(build, (&proxy, 720u64, tls_backend), built) ==> built == outcome,
        call_ensures(ClientCache::<C>::get, (&*old(cache), &proxy), before),
        call_ensures(ClientCache::<C>::get, (&*final(cache), &proxy), after),
        call_ensures(same_proxy, (&proxy, &other), same),
        call_ensures(ClientCache::<C>::get, (&*old(cache), &other), others.0),
        call_ensures(ClientCache::<C>::get, (&*final(cache), &other), others.1),
    ensures
        before is Some ==> after == before && result is Ok && cloned(*before->0, result->Ok_0),
        before is None ==> (result is Ok <==> outcome is Ok),
        before is None && outcome is Ok ==> after == Some(&outcome->Ok_0) && cloned(
            outcome->Ok_0,
            result->Ok_0,
        ),
        before is None && outcome is Err ==> after is None && result->Err_0 == outcome->Err_0,
        !same ==> others.1 == others.0,
{
}

/// A provider gets its clients from the cache, and has them built for its own TLS backend.
pub proof fn providers_use_the_cache<
    C: Clone,
    E,
    F: FnOnce(&Option<ProxyConfig>, u64, TlsBackend) -> Result<C, E>,
>(
    provider: KiroProvider,
    cache: &mut ClientCache<C>,
    proxy: Option<ProxyConfig>,
    build: F,
    outcome: Result<C, E>,
    result: Result<C, E>,
    before: Option<&C>,
    after: Option<&C>,
    other: Option<ProxyConfig>,
    same: bool,
    others: (Option<&C>, Option<&C>),
)
    requires
        call_ensures(
            KiroProvider::client_for::<C, E, F>,
            (&provider, cache, proxy, build),
            result,
        ),
        forall|built: Result<C, E>|
            call_ensures(build, (&proxy, 720u64, provider@.tls_backend), built) ==> built
                == outcome,
        call_ensures(ClientCache::<C>::get, (&*old(cache), &proxy), before),
        call_ensures(ClientCache::<C>::get, (&*final(cache), &proxy), after),
        call_ensures(same_proxy, (&proxy, &other), same),
        call_ensures(ClientCache::<C>::get, (&*old(cache), &other), others.0),
        call_ensures(ClientCache::<C>::get, (&*final(cache), &other), others.1),
    ensures
        before is Some ==> after == before && result is Ok && cloned(*before->0, result->Ok_0),
        before is None ==> (result is Ok <==> outcome is Ok),
        before is None && outcome is Ok ==> after == Some(&outcome->Ok_0) && cloned(
            outcome->Ok_0,
            result->Ok_0,
        ),
        before is None && outcome is Err ==> after is None && result->Err_0 == outcome->Err_0,
        !same ==> others.1 == others.0,
{
}

} // verus!
