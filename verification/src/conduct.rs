//! What a call does in each phase, told by what came in and what is to be done next.
//!
//! The laws here speak of statuses, settings and counters as they are, so that they can be read
//! without the definitions by which a call goes on.
use crate::call::{Action, Event};
use crate::error::{CallError, CallErrorView, CallKind};
use crate::protocol::{refusal_of, tries, ActionView, CallView, EventView, PhaseView};
use crate::provider::ProviderView;
use crate::rate_limit::{kind_of_body, RateLimitReason, UpstreamRateLimitKind};
use crate::status::HttpStatus;
use vstd::prelude::*;

verus! {

/// A call has three tries for each credential there is, or nine where that is fewer.
pub proof fn tries_go_by_credentials(total_credentials: nat)
    ensures
        tries(total_credentials) <= 3 * total_credentials,
        tries(total_credentials) <= 9,
        tries(total_credentials) == 3 * total_credentials || tries(total_credentials) == 9,
{
}

/// What a refusal calls for is told by its status: 429 is a rate limit, 402 a matter of payment,
/// 401 and 403 of the credential; 408 and all that is not in the four hundreds may pass; and any
/// other status blames the request.
pub proof fn statuses_tell_what_to_do(status: u16)
    ensures
        refusal_of(status) is RateLimit <==> status == 429,
        refusal_of(status) is Payment <==> status == 402,
        refusal_of(status) is Credential <==> status == 401 || status == 403,
        refusal_of(status) is Transient <==> status == 408 || status < 400 || status >= 500,
        refusal_of(status) is Request <==> 400 <= status < 500 && status != 401 && status != 402
            && status != 403 && status != 408 && status != 429,
{
}

/// Where there are credentials a call starts by taking one, whatever kind of call it is, whatever
/// model it names and whatever the settings are. Nothing has been counted or remembered yet.
pub proof fn calls_start_by_taking_a_credential<E>(
    provider: ProviderView,
    call: CallKind,
    model: Option<Seq<char>>,
    total_credentials: nat,
)
    requires
        total_credentials > 0,
    ensures
        ({
            let (fresh, first) = CallView::<E>::start(provider, call, model, total_credentials);
            &&& first is Acquire
            &&& fresh.phase is Acquiring
            &&& fresh.attempt == 0
            &&& fresh.credential_attempt == 0
            &&& fresh.sends == 0
            &&& fresh.cooled == 0
            &&& fresh.last_error is None
            &&& forall|id: u64| !fresh.resent.contains_key(id)
            &&& forall|id: u64| !fresh.refreshed.contains(id)
        }),
{
}

/// A call is made by the provider, of the kind and for the model that it was started with, and
/// has its tries: three for each credential, and never more than nine.
pub proof fn calls_keep_what_they_are_started_with<E>(
    provider: ProviderView,
    call: CallKind,
    model: Option<Seq<char>>,
    total_credentials: nat,
)
    ensures
        ({
            let fresh = CallView::<E>::start(provider, call, model, total_credentials).0;
            &&& fresh.provider == provider
            &&& fresh.call == call
            &&& fresh.model == model
            &&& fresh.max_retries <= 9
            &&& fresh.max_retries <= 3 * total_credentials
            &&& fresh.max_retries == 9 || fresh.max_retries == 3 * total_credentials
            &&& total_credentials == 0 ==> fresh.phase is Finished
        }),
{
}

/// The model that a call names has no bearing on what is done first.
pub proof fn models_have_no_bearing_on_the_start<E>(
    provider: ProviderView,
    call: CallKind,
    model: Option<Seq<char>>,
    other: Option<Seq<char>>,
    total_credentials: nat,
)
    ensures
        ({
            let one = CallView::<E>::start(provider, call, model, total_credentials);
            let two = CallView::<E>::start(provider, call, other, total_credentials);
            &&& one.1 == two.1
            &&& one.0 == CallView { model, ..two.0 }
        }),
{
}

/// The model that a call names has no bearing on how it goes on.
pub proof fn models_have_no_bearing_on_the_course<E>(
    call: CallView<E>,
    event: EventView<E>,
    model: Option<Seq<char>>,
)
    ensures
        ({
            let other = CallView { model, ..call };
            &&& other.expects(event) == call.expects(event)
            &&& call.expects(event) ==> other.step(event).1 == call.step(event).1
            &&& call.expects(event) ==> other.step(event).0 == CallView {
                model,
                ..call.step(event).0
            }
        }),
{
}

/// Each event belongs to the phases that wait for it, whatever it tells.
pub proof fn events_belong_to_their_phases<E>(call: CallView<E>, event: EventView<E>)
    ensures
        call.expects(event) <==> match event {
            EventView::Acquired { .. } => call.phase is Acquiring,
            EventView::AcquireFailed { .. } => call.phase is Acquiring,
            EventView::RetryAfter { .. } => call.phase is CheckingLimits || call.phase is AllLimited
                || call.phase is Cooled || call.phase is Protecting,
            EventView::Availability { .. } => call.phase is RejectingEndpoint
                || call.phase is Cooling || call.phase is ReportingRefusal,
            EventView::SendFailed { .. } => call.phase is Sending,
            EventView::Responded { .. } => call.phase is Sending,
            EventView::Body { .. } => call.phase is ReadingBody,
            EventView::Judged { .. } => call.phase is JudgingQuota || call.phase is JudgingToken,
            EventView::Refreshed { .. } => call.phase is Refreshing,
            EventView::Slept => call.phase is CredentialPause || call.phase is Pausing,
        },
{
}

/// After each action the call waits for what can come of it, and for nothing else.
pub proof fn actions_are_waited_for<E>(call: CallView<E>, event: EventView<E>)
    requires
        call.expects(event),
    ensures
        ({
            let (next, action) = call.step(event);
            match action {
                ActionView::Acquire => next.phase is Acquiring,
                ActionView::QueryRetryAfter => next.phase is CheckingLimits
                    || next.phase is AllLimited || next.phase is Cooled || next.phase is Protecting,
                ActionView::ReportFailure { .. } => next.phase is RejectingEndpoint
                    || next.phase is ReportingRefusal,
                ActionView::ReportQuotaExhausted { .. } => next.phase is ReportingRefusal,
                ActionView::ReportRateLimited { .. } => next.phase is Cooling,
                ActionView::Send { .. } => next.phase is Sending,
                ActionView::ReadBody => next.phase is ReadingBody,
                ActionView::AskMonthlyLimit => next.phase is JudgingQuota,
                ActionView::AskTokenInvalid => next.phase is JudgingToken,
                ActionView::ForceRefresh { .. } => next.phase is Refreshing,
                ActionView::Sleep { .. } => next.phase is CredentialPause || next.phase is Pausing,
                ActionView::Succeed { .. } => next.phase is Finished,
                ActionView::Fail { .. } => next.phase is Finished,
            }
        }),
{
}

/// A call never changes what it was started with.
pub proof fn calls_stay_what_they_are<E>(call: CallView<E>, event: EventView<E>)
    requires
        call.expects(event),
    ensures
        call.step(event).0.provider == call.provider,
        call.step(event).0.call == call.call,
        call.step(event).0.model == call.model,
        call.step(event).0.max_retries == call.max_retries,
{
}

/// Counters count the actions that they are for: tries the credentials taken after the first,
/// sends the requests sent, and so on. No other step moves them.
pub proof fn counters_count_actions<E>(call: CallView<E>, event: EventView<E>)
    requires
        call.expects(event),
    ensures
        ({
            let (next, action) = call.step(event);
            &&& action is Acquire ==> next.attempt == call.attempt + 1
            &&& action !is Acquire ==> next.attempt == call.attempt
            &&& action is Send ==> next.sends == call.sends + 1
            &&& action !is Send ==> next.sends == call.sends
            &&& action is ReportRateLimited ==> next.cooled == call.cooled + 1
            &&& action !is ReportRateLimited ==> next.cooled == call.cooled
        }),
{
}

/// Each try counts for itself how often the request was sent again: from nothing on, and by one
/// for each time that the request is sent after a pause with the same credential.
pub proof fn tries_count_their_own_retries<E>(call: CallView<E>, event: EventView<E>)
    requires
        call.expects(event),
    ensures
        ({
            let (next, action) = call.step(event);
            &&& action is Acquire ==> next.credential_attempt == 0
            &&& action is Send && call.phase is CredentialPause ==> next.credential_attempt
                == call.credential_attempt + 1
            &&& action is Send && call.phase is Acquiring ==> next.credential_attempt
                == call.credential_attempt
            &&& action !is Acquire && action !is Send ==> next.credential_attempt
                == call.credential_attempt
        }),
{
}

/// It is known of each credential how often the request was sent again with it: a send counts
/// for the credential that is used, and for no other.
pub proof fn sends_count_for_their_credential<E>(call: CallView<E>, event: EventView<E>, other: u64)
    requires
        call.expects(event),
    ensures
        ({
            let (next, action) = call.step(event);
            let used = next.phase->Sending_id;
            &&& action !is Send ==> next.resent == call.resent
            &&& action is Send && !call.resent.contains_key(used) ==> next.resent.contains_key(used)
                && next.resent[used] == 0
            &&& action is Send && call.resent.contains_key(used) ==> next.resent.contains_key(used)
                && next.resent[used] == call.resent[used] + 1
            &&& action is Send && other != used ==> next.resent.contains_key(other)
                == call.resent.contains_key(other)
            &&& action is Send && other != used && call.resent.contains_key(other)
                ==> next.resent[other] == call.resent[other]
        }),
{
}

/// It is known of which credentials a token was refreshed: those of the refreshes asked for.
pub proof fn refreshes_are_remembered<E>(call: CallView<E>, event: EventView<E>, other: u64)
    requires
        call.expects(event),
    ensures
        ({
            let (next, action) = call.step(event);
            next.refreshed.contains(other) <==> call.refreshed.contains(other) || action
                == ActionView::<E>::ForceRefresh { id: other }
        }),
{
}

/// The error that a step leaves behind: the one that it ends the call with, or else the one that
/// is remembered.
pub open spec fn left_behind<E>(step: (CallView<E>, ActionView<E>)) -> Option<CallErrorView<E>> {
    match step.1 {
        ActionView::Fail { error } => Some(error),
        _ => step.0.last_error,
    }
}

/// A credential whose endpoint is registered is used at once, through the endpoint with the name
/// that it asks for or the default endpoint, as long as the call has sent its request no more
/// often than it has tries and, again with this credential, less than three times.
pub proof fn credentials_are_used_through_their_endpoint<E>(
    call: CallView<E>,
    id: u64,
    requested: Option<Seq<char>>,
    i: int,
)
    requires
        call.phase is Acquiring,
        call.provider.endpoints.no_duplicates(),
        0 <= i < call.provider.endpoints.len(),
        requested matches Some(name) ==> call.provider.endpoints[i] == name,
        requested is None ==> call.provider.endpoints[i] == call.provider.default_endpoint,
        call.sends <= call.max_retries,
        call.resent.contains_key(id) ==> call.resent[id] < 3,
    ensures
        ({
            let (next, action) = call.step(EventView::Acquired { id, endpoint: requested });
            &&& action == ActionView::<E>::Send { endpoint: i }
            &&& next.phase == PhaseView::<E>::Sending { id, endpoint: i }
            &&& next.last_error == call.last_error
        }),
{
    call.provider.endpoints.index_of_first_ensures(call.provider.endpoints[i]);
}

/// A credential that was retried three times is passed over, and a call that has sent its request
/// more often than it has tries ends. Neither is the credential reported nor the error replaced
/// that was remembered last.
pub proof fn used_up_retries_send_nothing<E>(
    call: CallView<E>,
    id: u64,
    requested: Option<Seq<char>>,
    i: int,
)
    requires
        call.phase is Acquiring,
        0 <= i < call.provider.endpoints.len(),
        requested matches Some(name) ==> call.provider.endpoints[i] == name,
        requested is None ==> call.provider.endpoints[i] == call.provider.default_endpoint,
        call.sends > call.max_retries || (call.resent.contains_key(id) && call.resent[id] >= 3),
    ensures
        ({
            let (next, action) = call.step(EventView::Acquired { id, endpoint: requested });
            &&& action is Acquire || action is Fail
            &&& action is Acquire <==> call.sends <= call.max_retries && call.attempt + 1
                < call.max_retries
            &&& action is Acquire ==> next.last_error == call.last_error
            &&& action is Fail && call.last_error is Some ==> action
                == ActionView::<E>::Fail { error: call.last_error->0 }
            &&& action is Fail && call.last_error is None ==> action == (ActionView::<E>::Fail {
                error: CallErrorView::OutOfTries {
                    call: call.call,
                    max_retries: call.max_retries,
                },
            })
        }),
{
    call.provider.endpoints.index_of_first_ensures(call.provider.endpoints[i]);
}

/// A credential that asks for an endpoint which is not registered is reported, and the name is
/// remembered.
pub proof fn unknown_endpoints_are_reported<E>(call: CallView<E>, id: u64, name: Seq<char>)
    requires
        call.phase is Acquiring,
        !call.provider.endpoints.contains(name),
    ensures
        ({
            let (next, action) = call.step(EventView::Acquired { id, endpoint: Some(name) });
            &&& action == ActionView::<E>::ReportFailure { id }
            &&& next.phase is RejectingEndpoint
            &&& next.last_error == Some(CallErrorView::<E>::UnknownEndpoint { name })
        }),
{
    call.provider.endpoints.index_of_first_ensures(name);
}

/// Where no credential can be had, it is asked whether rate limits are why. If they are, it is
/// asked for how long; if not, the error is remembered and the call goes on with its next try at
/// once, or ends with the error after the last try.
pub proof fn missing_credentials_are_asked_about<E>(
    call: CallView<E>,
    error: E,
    seconds: Option<u64>,
)
    ensures
        call.phase is Acquiring ==> ({
            let (next, action) = call.step(EventView::AcquireFailed { error });
            &&& action is QueryRetryAfter
            &&& next.phase == PhaseView::CheckingLimits { error }
            &&& next.last_error == call.last_error
        }),
        (call.phase == (PhaseView::CheckingLimits { error })) && seconds is Some ==> ({
            let (next, action) = call.step(EventView::RetryAfter { seconds });
            &&& action is QueryRetryAfter
            &&& next.phase is AllLimited
            &&& next.last_error == call.last_error
        }),
        (call.phase == (PhaseView::CheckingLimits { error })) && seconds is None ==> ({
            let (next, action) = call.step(EventView::RetryAfter { seconds });
            &&& action is Acquire || action is Fail
            &&& action is Acquire <==> call.attempt + 1 < call.max_retries
            &&& left_behind((next, action)) == Some(CallErrorView::Outside(error))
        }),
{
}

/// Where rate limits keep every credential away, the call ends: the caller is told to wait for as
/// long as the credentials say, or else for the ordinary cooldown, which is a second at least.
pub proof fn limited_credentials_end_the_call<E>(call: CallView<E>, seconds: Option<u64>)
    requires
        call.phase is AllLimited,
    ensures
        ({
            let action = call.step(EventView::RetryAfter { seconds }).1;
            &&& action matches ActionView::Fail { error } && (error matches CallErrorView::RateLimited(
                limit,
            ) && {
                &&& limit.message
                    == "All available upstream credentials are currently rate limited."@
                &&& seconds is Some ==> limit.retry_after_seconds == seconds
                &&& seconds is None && call.provider.settings.rate_limit_cooldown_seconds > 0
                    ==> limit.retry_after_seconds == Some(
                    call.provider.settings.rate_limit_cooldown_seconds,
                )
                &&& seconds is None && call.provider.settings.rate_limit_cooldown_seconds == 0
                    ==> limit.retry_after_seconds == Some(1u64)
            })
        }),
{
}

/// A call goes on with its next try at once after an unknown endpoint was reported, after a token
/// was refreshed and after a pause. After the last try it ends with the error that was remembered
/// last; if there is none, with the error that it is out of tries.
pub proof fn calls_go_on_until_their_last_try<E>(call: CallView<E>, event: EventView<E>)
    requires
        (call.phase is RejectingEndpoint && event is Availability) || (call.phase is Refreshing
            && event == (EventView::<E>::Refreshed { ok: true })) || (call.phase is Pausing
            && event is Slept),
    ensures
        ({
            let (next, action) = call.step(event);
            &&& call.attempt + 1 < call.max_retries ==> action is Acquire && next.last_error
                == call.last_error
            &&& call.attempt + 1 >= call.max_retries && call.last_error is Some ==> action
                == ActionView::<E>::Fail { error: call.last_error->0 }
            &&& call.attempt + 1 >= call.max_retries && call.last_error is None ==> action == (
            ActionView::<E>::Fail {
                error: CallErrorView::OutOfTries {
                    call: call.call,
                    max_retries: call.max_retries,
                },
            })
        }),
{
}

/// A request that could not be sent is tried again after the pause that belongs to this try, or
/// ends the call after the last one. Its error is the one that is left behind.
pub proof fn unsent_requests_are_tried_again<E>(call: CallView<E>, error: E)
    requires
        call.phase is Sending,
    ensures
        ({
            let (next, action) = call.step(EventView::SendFailed { error });
            &&& call.attempt + 1 < call.max_retries ==> action == ActionView::<E>::Sleep {
                attempt: call.attempt,
            } && next.phase is Pausing
            &&& call.attempt + 1 >= call.max_retries ==> action is Fail
            &&& left_behind((next, action)) == Some(CallErrorView::Outside(error))
        }),
{
}

/// A status from 200 to 299 ends the call with success for the credential that was used. Of any
/// other answer the body is read, with the credential, the endpoint and the status kept in mind.
pub proof fn answers_go_by_their_status<E>(call: CallView<E>, id: u64, endpoint: int, status: u16)
    requires
        call.phase == (PhaseView::<E>::Sending { id, endpoint }),
    ensures
        ({
            let (next, action) = call.step(EventView::Responded { status });
            &&& 200 <= status <= 299 ==> action == ActionView::<E>::Succeed { id }
            &&& status < 200 || status > 299 ==> action is ReadBody && next.phase
                == PhaseView::<E>::ReadingBody { id, endpoint, status } && next.last_error
                == call.last_error
        }),
{
}

/// On any try, after a rate limit the request is sent again with the same credential after a
/// pause while the settings for the kind of limit, the credential and the call allow it. The
/// kind of limit is told by the body, and nothing else decides.
pub proof fn rate_limits_are_retried_by_their_kind<E>(
    call: CallView<E>,
    id: u64,
    endpoint: int,
    body: Seq<char>,
)
    requires
        call.phase == (PhaseView::<E>::ReadingBody { id, endpoint, status: 429 }),
    ensures
        ({
            let (next, action) = call.step(EventView::Body { text: Some(body) });
            let settings = call.provider.settings;
            let again = {
                &&& call.credential_attempt < settings.retries(kind_of_body(body))
                &&& call.sends <= call.max_retries
                &&& call.resent.contains_key(id) ==> call.resent[id] < 3
            };
            &&& again ==> action == ActionView::<E>::Sleep { attempt: call.credential_attempt }
            &&& again ==> next.phase == PhaseView::<E>::CredentialPause { id, endpoint }
            &&& !again ==> action == ActionView::<E>::ReportRateLimited {
                id,
                cooldown_seconds: settings.cooldown(kind_of_body(body)),
                reason: kind_of_body(body).recorded_reason(),
            }
            &&& !again ==> next.phase == PhaseView::<E>::Cooling { kind: kind_of_body(body) }
            &&& next.last_error == call.last_error
        }),
{
}

/// On any try, a credential that is set aside for suspicious activity is reported with that reason
/// and for the time set for it, and one that ran into an ordinary limit with those of ordinary
/// limits. The time is a second at least.
pub proof fn rate_limits_are_reported_by_their_kind<E>(
    call: CallView<E>,
    id: u64,
    endpoint: int,
    body: Seq<char>,
)
    requires
        call.phase == (PhaseView::<E>::ReadingBody { id, endpoint, status: 429 }),
        call.step(EventView::Body { text: Some(body) }).1 !is Sleep,
    ensures
        ({
            let action = call.step(EventView::Body { text: Some(body) }).1;
            let ordinary = call.provider.settings.rate_limit_cooldown_seconds;
            let suspicious = call.provider.settings.suspicious_rate_limit_cooldown_seconds;
            &&& action is ReportRateLimited
            &&& action->ReportRateLimited_id == id
            &&& action->cooldown_seconds >= 1
            &&& kind_of_body(body) is Normal ==> action->reason is Normal
            &&& kind_of_body(body) is Suspicious ==> action->reason is Suspicious
            &&& kind_of_body(body) is Normal && ordinary >= 1 ==> action->cooldown_seconds
                == ordinary
            &&& kind_of_body(body) is Suspicious && suspicious >= 1 ==> action->cooldown_seconds
                == suspicious
        }),
{
}

/// The number of the try, the credentials set aside and the tokens refreshed before have no
/// bearing on what is done about a rate limit.
pub proof fn rate_limits_are_met_alike_on_every_try<E>(
    call: CallView<E>,
    other: CallView<E>,
    text: Option<Seq<char>>,
)
    requires
        call.phase matches PhaseView::ReadingBody { status, .. } && status == 429,
        other == (CallView {
            attempt: other.attempt,
            cooled: other.cooled,
            refreshed: other.refreshed,
            last_error: other.last_error,
            model: other.model,
            call: other.call,
            ..call
        }),
    ensures
        call.step(EventView::Body { text }).1 == other.step(EventView::Body { text }).1,
{
}

/// A body that cannot be read is taken for an empty one.
pub proof fn unreadable_bodies_count_as_empty<E>(call: CallView<E>)
    requires
        call.phase is ReadingBody,
    ensures
        call.step(EventView::Body { text: None }) == call.step(
            EventView::Body { text: Some(Seq::empty()) },
        ),
{
}

/// On 402 the endpoint is asked whether the monthly quota is used up, on 401 and 403 whether the
/// token is not valid. The body in question is the one that was read.
pub proof fn credential_refusals_are_asked_about<E>(
    call: CallView<E>,
    id: u64,
    endpoint: int,
    status: u16,
    body: Seq<char>,
)
    requires
        call.phase == (PhaseView::<E>::ReadingBody { id, endpoint, status }),
        status == 401 || status == 402 || status == 403,
    ensures
        ({
            let (next, action) = call.step(EventView::Body { text: Some(body) });
            &&& status == 402 ==> action is AskMonthlyLimit && next.phase
                == PhaseView::<E>::JudgingQuota { id, status, body }
            &&& status != 402 ==> action is AskTokenInvalid && next.phase
                == PhaseView::<E>::JudgingToken { id, status, body }
            &&& next.body_in_question() == Some(body)
            &&& next.last_error == call.last_error
        }),
{
}

/// A body is in question only while the endpoint is asked about it.
pub proof fn bodies_are_in_question_while_asked_about<E>(call: CallView<E>)
    ensures
        call.body_in_question() is Some <==> call.phase is JudgingQuota || call.phase is JudgingToken,
        call.phase is JudgingQuota ==> call.body_in_question() == Some(
            call.phase->JudgingQuota_body,
        ),
        call.phase is JudgingToken ==> call.body_in_question() == Some(
            call.phase->JudgingToken_body,
        ),
{
}

/// A refusal in the four hundreds that is neither of payment, nor of the credential, nor a rate
/// limit, nor a time-out ends the call at once with the status and the body that came; any other
/// refusal that is no matter of the credential is tried again after the pause that belongs to
/// this try, or ends the call after the last one.
pub proof fn other_refusals_end_or_pause<E>(
    call: CallView<E>,
    id: u64,
    endpoint: int,
    status: u16,
    body: Seq<char>,
)
    requires
        call.phase == (PhaseView::<E>::ReadingBody { id, endpoint, status }),
        status != 401,
        status != 402,
        status != 403,
        status != 429,
    ensures
        ({
            let (next, action) = call.step(EventView::Body { text: Some(body) });
            let ends = (400 <= status <= 499 && status != 408) || call.attempt + 1
                >= call.max_retries;
            &&& ends ==> action is Fail
            &&& !ends ==> action == ActionView::<E>::Sleep { attempt: call.attempt }
                && next.phase is Pausing
            &&& left_behind((next, action)) == Some(
                CallErrorView::<E>::Refused { call: call.call, status, body },
            )
        }),
{
}

/// After the pause the request is sent again with the same credential, through the same endpoint.
pub proof fn pauses_end_with_the_same_credential<E>(call: CallView<E>, id: u64, endpoint: int)
    requires
        call.phase == (PhaseView::<E>::CredentialPause { id, endpoint }),
    ensures
        ({
            let (next, action) = call.step(EventView::Slept);
            &&& action == ActionView::<E>::Send { endpoint }
            &&& next.phase == PhaseView::<E>::Sending { id, endpoint }
            &&& next.last_error == call.last_error
        }),
{
}

/// Once a credential is set aside, it is asked for how long credentials stay limited; the kind of
/// limit and whether some credential can still be used are kept in mind.
pub proof fn set_aside_credentials_are_asked_about<E>(
    call: CallView<E>,
    kind: UpstreamRateLimitKind,
    any: bool,
)
    requires
        call.phase == (PhaseView::<E>::Cooling { kind }),
    ensures
        ({
            let (next, action) = call.step(EventView::Availability { any });
            &&& action is QueryRetryAfter
            &&& next.phase == PhaseView::<E>::Cooled { kind, available: any }
            &&& next.last_error == call.last_error
        }),
{
}

/// After a credential was set aside the call ends if no other can be used; asks once more for how
/// long to wait if it has set aside as many as the settings allow; and else goes on with its next
/// try at once, or ends after the last one. What it leaves behind is that every credential is
/// limited, for as long as the credentials say or else for the cooldown of the kind of limit.
pub proof fn calls_go_on_after_setting_aside<E>(
    call: CallView<E>,
    kind: UpstreamRateLimitKind,
    available: bool,
    seconds: Option<u64>,
)
    requires
        call.phase == (PhaseView::<E>::Cooled { kind, available }),
    ensures
        ({
            let (next, action) = call.step(EventView::RetryAfter { seconds });
            let most = call.provider.settings.most_cooled();
            &&& !available ==> action is Fail
            &&& available && call.cooled >= most ==> action is QueryRetryAfter && next.phase
                == PhaseView::<E>::Protecting { kind }
            &&& available && call.cooled < most && call.attempt + 1 < call.max_retries
                ==> action is Acquire
            &&& available && call.cooled < most && call.attempt + 1 >= call.max_retries
                ==> action is Fail
            &&& left_behind((next, action)) matches Some(CallErrorView::RateLimited(limit)) && {
                &&& limit.message
                    == "All available upstream credentials are currently rate limited."@
                &&& seconds is Some ==> limit.retry_after_seconds == seconds
                &&& seconds is None ==> limit.retry_after_seconds == Some(
                    call.provider.settings.cooldown(kind),
                )
            }
        }),
{
}

/// A call that has set aside as many credentials as it may ends, and says that its request is
/// protected from limits: for as long as the credentials say, or else for the cooldown of the
/// kind of limit.
pub proof fn protected_calls_end<E>(
    call: CallView<E>,
    kind: UpstreamRateLimitKind,
    seconds: Option<u64>,
)
    requires
        call.phase == (PhaseView::<E>::Protecting { kind }),
    ensures
        ({
            let action = call.step(EventView::RetryAfter { seconds }).1;
            &&& action matches ActionView::Fail { error } && (error matches CallErrorView::RateLimited(
                limit,
            ) && {
                &&& limit.message
                    == "Upstream rate limit protection is active for this request. Please retry later."@
                &&& seconds is Some ==> limit.retry_after_seconds == seconds
                &&& seconds is None ==> limit.retry_after_seconds == Some(
                    call.provider.settings.cooldown(kind),
                )
            })
        }),
{
}

/// A used up quota is reported for the credential, whatever the status and the body. Otherwise
/// the refusal ends the call.
pub proof fn used_up_quotas_are_reported<E>(
    call: CallView<E>,
    id: u64,
    status: u16,
    body: Seq<char>,
    yes: bool,
)
    requires
        call.phase == (PhaseView::<E>::JudgingQuota { id, status, body }),
    ensures
        ({
            let (next, action) = call.step(EventView::Judged { yes });
            &&& yes ==> action == ActionView::<E>::ReportQuotaExhausted { id }
            &&& yes ==> next.phase == PhaseView::<E>::ReportingRefusal { status, body }
            &&& yes ==> next.last_error == call.last_error
            &&& !yes ==> action == (ActionView::<E>::Fail {
                error: CallErrorView::Refused { call: call.call, status, body },
            })
        }),
{
}

/// A token that is not valid is refreshed if it was not before in this call, whatever the status
/// of the refusal. Otherwise the credential is reported.
pub proof fn invalid_tokens_are_refreshed<E>(
    call: CallView<E>,
    id: u64,
    status: u16,
    body: Seq<char>,
    yes: bool,
)
    requires
        call.phase == (PhaseView::<E>::JudgingToken { id, status, body }),
    ensures
        ({
            let (next, action) = call.step(EventView::Judged { yes });
            let refresh = yes && !call.refreshed.contains(id);
            &&& refresh ==> action == ActionView::<E>::ForceRefresh { id }
            &&& refresh ==> next.phase == PhaseView::<E>::Refreshing { id, status, body }
            &&& !refresh ==> action == ActionView::<E>::ReportFailure { id }
            &&& !refresh ==> next.phase == PhaseView::<E>::ReportingRefusal { status, body }
            &&& next.last_error == call.last_error
        }),
{
}

/// The status of a refusal has no bearing on what is done about a token: 401 and 403 are met in
/// the same way.
pub proof fn tokens_are_refreshed_on_either_status<E>(
    call: CallView<E>,
    other: CallView<E>,
    id: u64,
    body: Seq<char>,
    yes: bool,
)
    requires
        call.phase == (PhaseView::<E>::JudgingToken { id, status: 401, body }),
        other == (CallView {
            phase: PhaseView::<E>::JudgingToken { id, status: 403, body },
            ..call
        }),
    ensures
        call.step(EventView::Judged { yes }).1 == other.step(EventView::Judged { yes }).1,
{
}

/// A credential whose token could not be refreshed is reported, and the refusal kept in mind.
pub proof fn failed_refreshes_are_reported<E>(
    call: CallView<E>,
    id: u64,
    status: u16,
    body: Seq<char>,
)
    requires
        call.phase == (PhaseView::<E>::Refreshing { id, status, body }),
    ensures
        ({
            let (next, action) = call.step(EventView::Refreshed { ok: false });
            &&& action == ActionView::<E>::ReportFailure { id }
            &&& next.phase == PhaseView::<E>::ReportingRefusal { status, body }
            &&& next.last_error == call.last_error
        }),
{
}

/// After a refused credential was reported the call ends if no other can be used, and says so;
/// else it goes on with its next try at once, or ends after the last one. What it leaves behind
/// is the refusal.
pub proof fn calls_go_on_after_a_refusal<E>(
    call: CallView<E>,
    status: u16,
    body: Seq<char>,
    any: bool,
)
    requires
        call.phase == (PhaseView::<E>::ReportingRefusal { status, body }),
    ensures
        ({
            let (next, action) = call.step(EventView::Availability { any });
            &&& !any ==> action == (ActionView::<E>::Fail {
                error: CallErrorView::CredentialsUsedUp { call: call.call, status, body },
            })
            &&& any && call.attempt + 1 < call.max_retries ==> action is Acquire
            &&& any && call.attempt + 1 >= call.max_retries ==> action is Fail
            &&& any ==> left_behind((next, action)) == Some(
                CallErrorView::<E>::Refused { call: call.call, status, body },
            )
        }),
{
}

/// An ended call has nothing left to remember.
pub proof fn ended_calls_remember_nothing<E>(call: CallView<E>, event: EventView<E>)
    requires
        call.expects(event),
    ensures
        call.step(event).0.phase is Finished ==> call.step(event).0.last_error is None,
{
}

/// A further try is left exactly if its number is below that of the tries.
pub proof fn tries_are_left_below_their_number<E>(call: CallView<E>)
    ensures
        call.has_tries_left() <==> call.attempt + 1 < call.max_retries,
{
}

/// The request may be sent with a credential exactly if the call has sent it no more often than
/// it has tries, and again with this credential less than three times.
pub proof fn requests_may_be_sent_within_their_limits<E>(call: CallView<E>, id: u64)
    ensures
        call.has_sends_left() <==> call.sends <= call.max_retries,
        call.may_send(id) <==> call.sends <= call.max_retries && (call.resent.contains_key(id)
            ==> call.resent[id] < 3),
{
}

/// An [`Event`] tells what it holds: nothing is left out, and nothing is changed.
pub proof fn events_tell_what_they_hold<E>(
    id: u64,
    name: String,
    error: E,
    seconds: Option<u64>,
    yes: bool,
    status: HttpStatus,
    text: String,
)
    ensures
        (Event::<E>::Acquired { id, endpoint: Some(name) })@ == (EventView::<E>::Acquired {
            id,
            endpoint: Some(name@),
        }),
        (Event::<E>::Acquired { id, endpoint: None })@ == (EventView::<E>::Acquired {
            id,
            endpoint: None,
        }),
        (Event::AcquireFailed { error })@ == (EventView::AcquireFailed { error }),
        (Event::<E>::RetryAfter { seconds })@ == (EventView::<E>::RetryAfter { seconds }),
        (Event::<E>::Availability { any: yes })@ == (EventView::<E>::Availability { any: yes }),
        (Event::SendFailed { error })@ == (EventView::SendFailed { error }),
        (Event::<E>::Responded { status })@ == (EventView::<E>::Responded { status: status@ }),
        (Event::<E>::Body { text: Some(text) })@ == (EventView::<E>::Body { text: Some(text@) }),
        (Event::<E>::Body { text: None })@ == (EventView::<E>::Body { text: None }),
        (Event::<E>::Judged { yes })@ == (EventView::<E>::Judged { yes }),
        (Event::<E>::Refreshed { ok: yes })@ == (EventView::<E>::Refreshed { ok: yes }),
        Event::<E>::Slept@ == EventView::<E>::Slept,
{
}

/// An [`Action`] asks for what it holds: nothing is left out, and nothing is changed.
pub proof fn actions_ask_for_what_they_hold<E>(
    id: u64,
    cooldown_seconds: u64,
    reason: RateLimitReason,
    endpoint: usize,
    attempt: usize,
    error: CallError<E>,
)
    ensures
        Action::<E>::Acquire@ == ActionView::<E>::Acquire,
        Action::<E>::QueryRetryAfter@ == ActionView::<E>::QueryRetryAfter,
        (Action::<E>::ReportFailure { id })@ == (ActionView::<E>::ReportFailure { id }),
        (Action::<E>::ReportQuotaExhausted { id })@ == (ActionView::<E>::ReportQuotaExhausted {
            id,
        }),
        (Action::<E>::ReportRateLimited { id, cooldown_seconds, reason })@ == (
        ActionView::<E>::ReportRateLimited { id, cooldown_seconds, reason }),
        (Action::<E>::Send { endpoint })@ == (ActionView::<E>::Send { endpoint: endpoint as int }),
        Action::<E>::ReadBody@ == ActionView::<E>::ReadBody,
        Action::<E>::AskMonthlyLimit@ == ActionView::<E>::AskMonthlyLimit,
        Action::<E>::AskTokenInvalid@ == ActionView::<E>::AskTokenInvalid,
        (Action::<E>::ForceRefresh { id })@ == (ActionView::<E>::ForceRefresh { id }),
        (Action::<E>::Sleep { attempt })@ == (ActionView::<E>::Sleep { attempt: attempt as nat }),
        (Action::<E>::Succeed { id })@ == (ActionView::<E>::Succeed { id }),
        (Action::Fail { error })@ == (ActionView::Fail { error: error@ }),
{
}

} // verus!
