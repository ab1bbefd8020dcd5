//! What holds of every call, whatever comes of its actions.
use crate::error::{CallErrorView, CallKind};
use crate::protocol::{refusal_of, tries, ActionView, CallView, EventView, PhaseView};
use crate::provider::{ProviderView, MAX_RETRIES_PER_CREDENTIAL, MAX_TOTAL_RETRIES};
use crate::rate_limit::UpstreamRateLimitKind;
use crate::status::{is_client_error_code, is_success_code};
use vstd::prelude::*;

verus! {

/// How many items of `s` satisfy `p`.
pub open spec fn count<A>(s: Seq<A>, p: spec_fn(A) -> bool) -> nat
    decreases s.len(),
{
    if s.len() == 0 {
        0
    } else {
        (if p(s[0]) {
            1nat
        } else {
            0nat
        }) + count(s.drop_first(), p)
    }
}

impl<E> CallView<E> {
    /// Each of the events is one that the call expects when it comes.
    pub open spec fn follows(self, events: Seq<EventView<E>>) -> bool
        decreases events.len(),
    {
        events.len() == 0 || (self.expects(events[0]) && self.step(events[0]).0.follows(
            events.drop_first(),
        ))
    }

    /// The call after the events.
    pub open spec fn after(self, events: Seq<EventView<E>>) -> CallView<E>
        decreases events.len(),
    {
        if events.len() == 0 {
            self
        } else {
            self.step(events[0]).0.after(events.drop_first())
        }
    }

    /// The actions that the call asks for, one for each event.
    pub open spec fn actions(self, events: Seq<EventView<E>>) -> Seq<ActionView<E>>
        decreases events.len(),
    {
        if events.len() == 0 {
            Seq::empty()
        } else {
            seq![self.step(events[0]).1] + self.step(events[0]).0.actions(events.drop_first())
        }
    }

    /// How many of the actions send the request with this credential.
    pub open spec fn sends_with(self, events: Seq<EventView<E>>, id: u64) -> nat
        decreases events.len(),
    {
        if events.len() == 0 {
            0
        } else {
            let (next, action) = self.step(events[0]);
            (if action is Send && (next.phase matches PhaseView::Sending { id: used, .. } && used
                == id) {
                1nat
            } else {
                0nat
            }) + next.sends_with(events.drop_first(), id)
        }
    }

    /// How often the request was sent with this credential.
    spec fn sent_with(self, id: u64) -> nat {
        if self.resent.contains_key(id) {
            self.resent[id] + 1
        } else {
            0
        }
    }

    /// How often the request can have been sent at most, by the settings.
    spec fn sent_by_settings(self) -> int {
        self.attempt * (self.provider.settings.most_retries() + 1) + self.credential_attempt + (
        match self.phase {
            PhaseView::Acquiring => 0int,
            PhaseView::CheckingLimits { .. } => 0,
            PhaseView::AllLimited => 0,
            PhaseView::RejectingEndpoint => 0,
            _ => 1,
        })
    }

    /// How many steps the call can make at most before its next try or its next send.
    spec fn rank(self) -> int {
        match self.phase {
            PhaseView::Acquiring => 3,
            PhaseView::CheckingLimits { .. } => 2,
            PhaseView::AllLimited => 1,
            PhaseView::RejectingEndpoint => 1,
            PhaseView::Sending { .. } => 7,
            PhaseView::ReadingBody { .. } => 6,
            PhaseView::JudgingQuota { .. } => 5,
            PhaseView::JudgingToken { .. } => 5,
            PhaseView::Refreshing { .. } => 4,
            PhaseView::ReportingRefusal { .. } => 3,
            PhaseView::Cooling { .. } => 3,
            PhaseView::Cooled { .. } => 2,
            PhaseView::Protecting { .. } => 1,
            PhaseView::CredentialPause { .. } => 1,
            PhaseView::Pausing => 1,
            PhaseView::Finished => 0,
        }
    }

    /// How many steps are left at most.
    spec fn budget(self) -> int {
        (self.max_retries - self.attempt) * 8 + (self.max_retries + 1 - self.sends) * 8
            + self.rank()
    }
}

/// The action takes a credential.
pub open spec fn is_acquire<E>() -> spec_fn(ActionView<E>) -> bool {
    |action: ActionView<E>| action is Acquire
}

/// The action sends the request.
pub open spec fn is_send<E>() -> spec_fn(ActionView<E>) -> bool {
    |action: ActionView<E>| action is Send
}

/// The action sets a credential aside.
pub open spec fn is_cooling<E>() -> spec_fn(ActionView<E>) -> bool {
    |action: ActionView<E>| action is ReportRateLimited
}

/// A call starts within its limits.
pub proof fn start_is_wf<E>(
    provider: ProviderView,
    call: CallKind,
    model: Option<Seq<char>>,
    total_credentials: nat,
)
    requires
        provider.wf(),
    ensures
        CallView::<E>::start(provider, call, model, total_credentials).0.wf(),
{
}

/// A call stays within its limits, whatever comes of its actions.
pub proof fn step_keeps_wf<E>(call: CallView<E>, event: EventView<E>)
    requires
        call.wf(),
        call.expects(event),
    ensures
        call.step(event).0.wf(),
{
    if let EventView::Acquired { endpoint, .. } = event {
        call.provider.endpoints.index_of_first_ensures(call.provider.endpoint_name(endpoint));
    }
}

proof fn step_keeps_frame<E>(call: CallView<E>, event: EventView<E>)
    requires
        call.expects(event),
    ensures
        call.step(event).0.provider == call.provider,
        call.step(event).0.call == call.call,
        call.step(event).0.model == call.model,
        call.step(event).0.max_retries == call.max_retries,
{
}

/// Events keep a call within its limits and never change what it is for.
pub proof fn events_keep_wf<E>(call: CallView<E>, events: Seq<EventView<E>>)
    requires
        call.wf(),
        call.follows(events),
    ensures
        call.after(events).wf(),
        call.after(events).provider == call.provider,
        call.after(events).call == call.call,
        call.after(events).model == call.model,
        call.after(events).max_retries == call.max_retries,
        call.actions(events).len() == events.len(),
    decreases events.len(),
{
    if events.len() > 0 {
        step_keeps_wf(call, events[0]);
        step_keeps_frame(call, events[0]);
        events_keep_wf(call.step(events[0]).0, events.drop_first());
    }
}

proof fn count_first<A>(first: A, rest: Seq<A>, p: spec_fn(A) -> bool)
    ensures
        count(seq![first] + rest, p) == (if p(first) {
            1nat
        } else {
            0nat
        }) + count(rest, p),
{
    assert((seq![first] + rest).drop_first() =~= rest);
}

proof fn acquisitions_count_tries<E>(call: CallView<E>, events: Seq<EventView<E>>)
    requires
        call.follows(events),
    ensures
        count(call.actions(events), is_acquire()) == call.after(events).attempt - call.attempt,
    decreases events.len(),
{
    if events.len() > 0 {
        let (next, action) = call.step(events[0]);
        acquisitions_count_tries(next, events.drop_first());
        count_first(action, next.actions(events.drop_first()), is_acquire());
    }
}

/// A call takes at most as many credentials as it has tries: three for each credential there
/// is, and never more than nine.
pub proof fn tries_are_limited<E>(
    provider: ProviderView,
    call: CallKind,
    model: Option<Seq<char>>,
    total_credentials: nat,
    events: Seq<EventView<E>>,
)
    requires
        provider.wf(),
        CallView::<E>::start(provider, call, model, total_credentials).0.follows(events),
    ensures
        ({
            let (fresh, first) = CallView::<E>::start(provider, call, model, total_credentials);
            let taken = count(seq![first] + fresh.actions(events), is_acquire());
            &&& taken <= tries(total_credentials)
            &&& taken <= total_credentials * MAX_RETRIES_PER_CREDENTIAL
            &&& taken <= MAX_TOTAL_RETRIES
        }),
{
    let (fresh, first) = CallView::<E>::start(provider, call, model, total_credentials);
    start_is_wf::<E>(provider, call, model, total_credentials);
    events_keep_wf(fresh, events);
    acquisitions_count_tries(fresh, events);
    count_first(first, fresh.actions(events), is_acquire());
    if events.len() > 0 {
        last_try_is_within_the_limit(fresh, events);
    }
}

proof fn last_try_is_within_the_limit<E>(call: CallView<E>, events: Seq<EventView<E>>)
    requires
        call.wf(),
        call.follows(events),
        call.attempt < call.max_retries,
    ensures
        call.after(events).attempt < call.max_retries,
    decreases events.len(),
{
    if events.len() > 0 {
        step_keeps_wf(call, events[0]);
        step_keeps_frame(call, events[0]);
        last_try_is_within_the_limit(call.step(events[0]).0, events.drop_first());
    }
}

proof fn coolings_count_cooled<E>(call: CallView<E>, events: Seq<EventView<E>>)
    requires
        call.follows(events),
    ensures
        count(call.actions(events), is_cooling()) == call.after(events).cooled - call.cooled,
    decreases events.len(),
{
    if events.len() > 0 {
        let (next, action) = call.step(events[0]);
        coolings_count_cooled(next, events.drop_first());
        count_first(action, next.actions(events.drop_first()), is_cooling());
    }
}

/// A call sets aside no more credentials than the settings allow for one request.
pub proof fn cooled_credentials_are_limited<E>(
    provider: ProviderView,
    call: CallKind,
    model: Option<Seq<char>>,
    total_credentials: nat,
    events: Seq<EventView<E>>,
)
    requires
        provider.wf(),
        CallView::<E>::start(provider, call, model, total_credentials).0.follows(events),
    ensures
        count(
            CallView::<E>::start(provider, call, model, total_credentials).0.actions(events),
            is_cooling(),
        ) <= provider.settings.most_cooled(),
{
    let fresh = CallView::<E>::start(provider, call, model, total_credentials).0;
    start_is_wf::<E>(provider, call, model, total_credentials);
    events_keep_wf(fresh, events);
    coolings_count_cooled(fresh, events);
}

proof fn refreshes_are_new<E>(call: CallView<E>, events: Seq<EventView<E>>, i: int)
    requires
        call.follows(events),
        0 <= i < call.actions(events).len(),
        call.actions(events)[i] is ForceRefresh,
    ensures
        !call.refreshed.contains(call.actions(events)[i]->ForceRefresh_id),
    decreases events.len(),
{
    if events.len() > 0 && i > 0 {
        let next = call.step(events[0]).0;
        let rest = events.drop_first();
        assert(call.actions(events)[i] == next.actions(rest)[i - 1]);
        refreshes_are_new(next, rest, i - 1);
        assert(call.refreshed.subset_of(next.refreshed));
    }
}

/// A call has the token of a credential refreshed at most once.
pub proof fn tokens_are_refreshed_once<E>(
    call: CallView<E>,
    events: Seq<EventView<E>>,
    i: int,
    j: int,
)
    requires
        call.follows(events),
        0 <= i < j < call.actions(events).len(),
        call.actions(events)[i] is ForceRefresh,
        call.actions(events)[j] is ForceRefresh,
    ensures
        call.actions(events)[i]->ForceRefresh_id != call.actions(events)[j]->ForceRefresh_id,
    decreases events.len(),
{
    let next = call.step(events[0]).0;
    let rest = events.drop_first();
    assert(call.actions(events)[j] == next.actions(rest)[j - 1]);
    if i == 0 {
        refreshes_are_new(next, rest, j - 1);
    } else {
        assert(call.actions(events)[i] == next.actions(rest)[i - 1]);
        tokens_are_refreshed_once(next, rest, i - 1, j - 1);
    }
}

proof fn step_uses_up_budget<E>(call: CallView<E>, event: EventView<E>)
    requires
        call.wf(),
        call.expects(event),
    ensures
        call.step(event).0.budget() < call.budget(),
        call.step(event).0.attempt < call.max_retries,
{
}

proof fn budget_covers<E>(call: CallView<E>, events: Seq<EventView<E>>)
    requires
        call.wf(),
        call.attempt < call.max_retries,
        call.follows(events),
    ensures
        events.len() <= call.budget(),
    decreases events.len(),
{
    if events.len() > 0 {
        step_keeps_wf(call, events[0]);
        step_keeps_frame(call, events[0]);
        step_uses_up_budget(call, events[0]);
        budget_covers(call.step(events[0]).0, events.drop_first());
    }
}

/// Every call ends: it takes in no more than so many events, whatever they are and whatever the
/// settings.
pub proof fn calls_end<E>(call: CallView<E>, events: Seq<EventView<E>>)
    requires
        call.wf(),
        call.follows(events),
    ensures
        events.len() <= 16 * call.max_retries + 15,
{
    if events.len() > 0 {
        budget_covers(call, events);
    }
}

/// A call waits for something until it has ended, and for nothing after that.
pub proof fn calls_wait_until_they_end<E>(call: CallView<E>)
    ensures
        call.phase !is Finished <==> exists|event: EventView<E>| call.expects(event),
{
    assert(call.phase is Acquiring ==> call.expects(
        EventView::Acquired { id: 0, endpoint: None },
    ));
    assert(call.phase is CheckingLimits || call.phase is AllLimited || call.phase is Cooled
        || call.phase is Protecting ==> call.expects(EventView::RetryAfter { seconds: None }));
    assert(call.phase is RejectingEndpoint || call.phase is Cooling
        || call.phase is ReportingRefusal ==> call.expects(
        EventView::Availability { any: true },
    ));
    assert(call.phase is Sending ==> call.expects(EventView::Responded { status: 200 }));
    assert(call.phase is ReadingBody ==> call.expects(EventView::Body { text: None }));
    assert(call.phase is CredentialPause || call.phase is Pausing ==> call.expects(
        EventView::Slept,
    ));
    assert(call.phase is JudgingQuota || call.phase is JudgingToken ==> call.expects(
        EventView::Judged { yes: true },
    ));
    assert(call.phase is Refreshing ==> call.expects(EventView::Refreshed { ok: true }));
}

/// A call ends with the action that hands its outcome to the caller, and only with that.
pub proof fn outcome_ends_the_call<E>(call: CallView<E>, event: EventView<E>)
    requires
        call.expects(event),
    ensures
        call.step(event).0.phase is Finished <==> (call.step(event).1 is Succeed || call.step(
            event,
        ).1 is Fail),
{
}

proof fn sends_are_counted<E>(call: CallView<E>, events: Seq<EventView<E>>)
    requires
        call.follows(events),
    ensures
        count(call.actions(events), is_send()) == call.after(events).sends - call.sends,
    decreases events.len(),
{
    if events.len() > 0 {
        let (next, action) = call.step(events[0]);
        sends_are_counted(next, events.drop_first());
        count_first(action, next.actions(events.drop_first()), is_send());
    }
}

proof fn sends_keep_to_the_settings<E>(call: CallView<E>, events: Seq<EventView<E>>)
    requires
        call.wf(),
        call.attempt < call.max_retries,
        call.follows(events),
    ensures
        call.sent_by_settings() + count(call.actions(events), is_send()) <= call.after(
            events,
        ).sent_by_settings(),
    decreases events.len(),
{
    if events.len() > 0 {
        let (next, action) = call.step(events[0]);
        step_keeps_wf(call, events[0]);
        step_keeps_frame(call, events[0]);
        step_uses_up_budget(call, events[0]);
        let m = call.provider.settings.most_retries() as nat;
        assert((call.attempt + 1) * (m + 1) == call.attempt * (m + 1) + m + 1) by (nonlinear_arith);
        assert(next.attempt == call.attempt || next.attempt == call.attempt + 1);
        sends_keep_to_the_settings(next, events.drop_first());
        count_first(action, next.actions(events.drop_first()), is_send());
    }
}

/// A call sends its request again no more often than it has retries: three for each credential
/// there is, and never more than nine, whatever the settings. Those after a rate limit count too.
pub proof fn sends_are_limited<E>(
    provider: ProviderView,
    call: CallKind,
    model: Option<Seq<char>>,
    total_credentials: nat,
    events: Seq<EventView<E>>,
)
    requires
        provider.wf(),
        CallView::<E>::start(provider, call, model, total_credentials).0.follows(events),
    ensures
        ({
            let fresh = CallView::<E>::start(provider, call, model, total_credentials).0;
            let sends = count(fresh.actions(events), is_send());
            &&& sends <= total_credentials * MAX_RETRIES_PER_CREDENTIAL + 1
            &&& sends <= MAX_TOTAL_RETRIES + 1
        }),
{
    let fresh = CallView::<E>::start(provider, call, model, total_credentials).0;
    start_is_wf::<E>(provider, call, model, total_credentials);
    events_keep_wf(fresh, events);
    sends_are_counted(fresh, events);
}

/// A call sends its request at most once for each try, and besides as often as the settings
/// allow to send it again with the same credential.
pub proof fn sends_are_within_the_settings<E>(
    provider: ProviderView,
    call: CallKind,
    model: Option<Seq<char>>,
    total_credentials: nat,
    events: Seq<EventView<E>>,
)
    requires
        provider.wf(),
        CallView::<E>::start(provider, call, model, total_credentials).0.follows(events),
    ensures
        count(
            CallView::<E>::start(provider, call, model, total_credentials).0.actions(events),
            is_send(),
        ) <= tries(total_credentials) * (provider.settings.most_retries() + 1),
{
    let fresh = CallView::<E>::start(provider, call, model, total_credentials).0;
    let m = provider.settings.most_retries() as nat;
    let n = tries(total_credentials);
    start_is_wf::<E>(provider, call, model, total_credentials);
    assert(n * (m + 1) >= 0) by (nonlinear_arith);
    if n > 0 {
        events_keep_wf(fresh, events);
        last_try_is_within_the_limit(fresh, events);
        sends_keep_to_the_settings(fresh, events);
        let last = fresh.after(events);
        assert(last.attempt * (m + 1) + m + 1 <= n * (m + 1)) by (nonlinear_arith)
            requires
                last.attempt + 1 <= n,
        ;
    }
}

proof fn sends_are_counted_by_credential<E>(call: CallView<E>, events: Seq<EventView<E>>, id: u64)
    requires
        call.follows(events),
    ensures
        call.sends_with(events, id) == call.after(events).sent_with(id) - call.sent_with(id),
    decreases events.len(),
{
    if events.len() > 0 {
        sends_are_counted_by_credential(call.step(events[0]).0, events.drop_first(), id);
    }
}

/// A call sends its request again with the same credential at most three times, however often
/// the credential is handed out and whatever the settings.
pub proof fn credentials_are_retried_within_their_limit<E>(
    provider: ProviderView,
    call: CallKind,
    model: Option<Seq<char>>,
    total_credentials: nat,
    events: Seq<EventView<E>>,
    id: u64,
)
    requires
        provider.wf(),
        CallView::<E>::start(provider, call, model, total_credentials).0.follows(events),
    ensures
        CallView::<E>::start(provider, call, model, total_credentials).0.sends_with(events, id)
            <= MAX_RETRIES_PER_CREDENTIAL + 1,
{
    let fresh = CallView::<E>::start(provider, call, model, total_credentials).0;
    start_is_wf::<E>(provider, call, model, total_credentials);
    events_keep_wf(fresh, events);
    sends_are_counted_by_credential(fresh, events, id);
}

/// A credential whose retries are used up is passed over while the call has retries left: the
/// call goes on with its next try at once, and blames nobody.
pub proof fn used_up_credentials_are_passed_over<E>(
    call: CallView<E>,
    id: u64,
    requested: Option<Seq<char>>,
)
    requires
        call.phase is Acquiring,
        call.provider.endpoint(requested) is Some,
        !call.may_send(id),
        call.has_sends_left(),
        call.has_tries_left(),
    ensures
        call.step(EventView::Acquired { id, endpoint: requested }) == (
            CallView { attempt: call.attempt + 1, credential_attempt: 0, ..call },
            ActionView::<E>::Acquire,
        ),
{
}

/// A call that has used up its retries ends with the error that was remembered last, whatever
/// credential it gets.
pub proof fn used_up_retries_end_the_call<E>(
    call: CallView<E>,
    id: u64,
    requested: Option<Seq<char>>,
)
    requires
        call.phase is Acquiring,
        call.provider.endpoint(requested) is Some,
        !call.has_sends_left(),
    ensures
        call.step(EventView::Acquired { id, endpoint: requested }).1 == (ActionView::<E>::Fail {
            error: match call.last_error {
                Some(error) => error,
                None => CallErrorView::OutOfTries {
                    call: call.call,
                    max_retries: call.max_retries,
                },
            },
        }),
{
}

/// Getting a credential ends a call only if no try or no retry is left.
pub proof fn calls_use_their_tries<E>(call: CallView<E>, id: u64, requested: Option<Seq<char>>)
    requires
        call.phase is Acquiring,
        call.step(EventView::Acquired { id, endpoint: requested }).1 is Fail,
    ensures
        !call.has_tries_left() || !call.has_sends_left(),
{
}

/// The answer goes to the caller as soon as its status is one of success, and only if it is;
/// the success is put to the credit of the credential that was used.
pub proof fn success_is_handed_on<E>(call: CallView<E>, event: EventView<E>)
    requires
        call.expects(event),
    ensures
        call.step(event).1 is Succeed <==> (event matches EventView::Responded { status }
            && is_success_code(status)),
        call.step(event).1 matches ActionView::Succeed { id } ==> call.phase matches PhaseView::Sending {
            id: used,
            ..
        } && id == used,
{
}

/// Trouble on the way to the upstream service leaves credentials alone: a request that could
/// not be sent is tried again after a pause, or its error ends the call.
pub proof fn unsent_requests_blame_no_credential<E>(call: CallView<E>, error: E)
    requires
        call.wf(),
        call.expects(EventView::SendFailed { error }),
    ensures
        ({
            let (next, action) = call.step(EventView::SendFailed { error });
            &&& action == (if call.has_tries_left() {
                ActionView::Sleep { attempt: call.attempt }
            } else {
                ActionView::Fail { error: CallErrorView::Outside(error) }
            })
            &&& next.refreshed == call.refreshed
            &&& next.cooled == call.cooled
        }),
{
}

/// The body that stands for one that may not have been readable.
pub open spec fn body_or_empty(text: Option<Seq<char>>) -> Seq<char> {
    match text {
        Some(body) => body,
        None => Seq::empty(),
    }
}

/// Trouble of the upstream service that may pass leaves credentials alone: the request is tried
/// again after a pause, or the refusal ends the call. Time-outs (408), errors of the server and
/// all statuses that are neither of success nor blame the request are such trouble.
pub proof fn transient_refusals_blame_no_credential<E>(
    call: CallView<E>,
    id: u64,
    endpoint: int,
    status: u16,
    text: Option<Seq<char>>,
)
    requires
        call.wf(),
        call.phase == (PhaseView::<E>::ReadingBody { id, endpoint, status }),
        status == 408 || !is_client_error_code(status),
    ensures
        refusal_of(status) is Transient,
        ({
            let (next, action) = call.step(EventView::Body { text });
            &&& action == (if call.has_tries_left() {
                ActionView::Sleep { attempt: call.attempt }
            } else {
                ActionView::Fail {
                    error: CallErrorView::<E>::Refused {
                        call: call.call,
                        status,
                        body: body_or_empty(text),
                    },
                }
            })
            &&& next.refreshed == call.refreshed
            &&& next.cooled == call.cooled
        }),
{
}

/// A request that is itself at fault ends the call at once, and no credential is blamed.
pub proof fn faulty_requests_end_the_call<E>(
    call: CallView<E>,
    id: u64,
    endpoint: int,
    status: u16,
    text: Option<Seq<char>>,
)
    requires
        call.phase == (PhaseView::<E>::ReadingBody { id, endpoint, status }),
        is_client_error_code(status),
        status != 401,
        status != 402,
        status != 403,
        status != 408,
        status != 429,
    ensures
        call.step(EventView::Body { text }).1 == (ActionView::<E>::Fail {
            error: CallErrorView::Refused {
                call: call.call,
                status,
                body: body_or_empty(text),
            },
        }),
{
}

/// Payment that is required for another reason than a used up quota ends the call, and no
/// credential is blamed.
pub proof fn other_payment_refusals_end_the_call<E>(
    call: CallView<E>,
    id: u64,
    status: u16,
    body: Seq<char>,
)
    requires
        call.phase == (PhaseView::<E>::JudgingQuota { id, status, body }),
    ensures
        call.step(EventView::Judged { yes: false }).1 == (ActionView::<E>::Fail {
            error: CallErrorView::Refused { call: call.call, status, body },
        }),
{
}

/// A credential is only reported as failed if its endpoint is not registered or the upstream
/// service rejected it.
pub proof fn failures_are_reported_with_reason<E>(call: CallView<E>, event: EventView<E>)
    requires
        call.wf(),
        call.expects(event),
        call.step(event).1 is ReportFailure,
    ensures
        match call.phase {
            PhaseView::Acquiring => event matches EventView::Acquired { endpoint: Some(name), .. }
                && !call.provider.endpoints.contains(name),
            PhaseView::JudgingToken { status, .. } => status == 401 || status == 403,
            PhaseView::Refreshing { status, .. } => status == 401 || status == 403,
            _ => false,
        },
{
    if let EventView::Acquired { endpoint, .. } = event {
        call.provider.endpoints.index_of_first_ensures(call.provider.endpoint_name(endpoint));
    }
}

/// A refused credential is passed over: the call goes on with another one at once as long as
/// one is left and tries are, and ends with the refusal if not.
pub proof fn refused_credentials_are_passed_over<E>(
    call: CallView<E>,
    status: u16,
    body: Seq<char>,
    any: bool,
)
    requires
        call.phase == (PhaseView::<E>::ReportingRefusal { status, body }),
    ensures
        call.step(EventView::Availability { any }).1 == (if !any {
            ActionView::Fail {
                error: CallErrorView::<E>::CredentialsUsedUp { call: call.call, status, body },
            }
        } else if call.has_tries_left() {
            ActionView::Acquire
        } else {
            ActionView::Fail {
                error: CallErrorView::<E>::Refused { call: call.call, status, body },
            }
        }),
{
}

/// A rate limited credential is passed over: the call goes on with another one at once as long
/// as one is left, tries are, and the call has not set aside as many as the settings allow.
pub proof fn limited_credentials_are_passed_over<E>(
    call: CallView<E>,
    kind: UpstreamRateLimitKind,
    available: bool,
    seconds: Option<u64>,
)
    requires
        call.phase == (PhaseView::<E>::Cooled { kind, available }),
    ensures
        call.step(EventView::RetryAfter { seconds }).1 is Acquire <==> {
            &&& available
            &&& call.cooled < call.provider.settings.most_cooled()
            &&& call.has_tries_left()
        },
{
}

/// A rate limited credential is only set aside after the request was sent again with it as often
/// as the settings allow for the kind of limit that it ran into, or the retries of the credential
/// or of the call are used up.
pub proof fn credentials_cool_after_their_retries<E>(call: CallView<E>, event: EventView<E>)
    requires
        call.expects(event),
        call.step(event).1 is ReportRateLimited,
    ensures
        call.step(event).0.phase matches PhaseView::Cooling { kind } && {
            &&& call.credential_attempt >= call.provider.settings.retries(kind) || !call.may_send(
                call.step(event).1->ReportRateLimited_id,
            )
            &&& call.step(event).1->cooldown_seconds == call.provider.settings.cooldown(kind)
            &&& call.step(event).1->reason == kind.recorded_reason()
        },
{
}

/// A rate limit that a call ends with always tells the caller for how long to wait.
pub proof fn rate_limits_tell_when_to_retry<E>(call: CallView<E>, event: EventView<E>)
    requires
        call.wf(),
        call.expects(event),
    ensures
        call.step(event).1 matches ActionView::Fail { error } ==> error.tells_when_to_retry(),
{
}

/// Without credentials nothing is done for a call: it ends at once.
pub proof fn no_credentials_no_tries<E>(
    provider: ProviderView,
    call: CallKind,
    model: Option<Seq<char>>,
)
    ensures
        CallView::<E>::start(provider, call, model, 0).1 == (ActionView::<E>::Fail {
            error: CallErrorView::OutOfTries { call, max_retries: 0 },
        }),
{
}

impl<E> CallErrorView<E> {
    /// This error as a call of another kind reports it.
    pub open spec fn relabelled(self, kind: CallKind) -> CallErrorView<E> {
        match self {
            CallErrorView::Refused { status, body, .. } => CallErrorView::Refused {
                call: kind,
                status,
                body,
            },
            CallErrorView::CredentialsUsedUp { status, body, .. } =>
                CallErrorView::CredentialsUsedUp { call: kind, status, body },
            CallErrorView::OutOfTries { max_retries, .. } => CallErrorView::OutOfTries {
                call: kind,
                max_retries,
            },
            other => other,
        }
    }
}

impl<E> ActionView<E> {
    /// This action as a call of another kind asks for it.
    pub open spec fn relabelled(self, kind: CallKind) -> ActionView<E> {
        match self {
            ActionView::Fail { error } => ActionView::Fail { error: error.relabelled(kind) },
            other => other,
        }
    }
}

impl<E> CallView<E> {
    /// This call as one of another kind.
    pub open spec fn relabelled(self, kind: CallKind) -> CallView<E> {
        CallView {
            call: kind,
            last_error: match self.last_error {
                Some(error) => Some(error.relabelled(kind)),
                None => None,
            },
            ..self
        }
    }
}

/// All kinds of calls go on in the same way: they differ in how their errors are labelled and
/// in nothing else.
pub proof fn kinds_of_calls_go_on_alike<E>(call: CallView<E>, event: EventView<E>, kind: CallKind)
    ensures
        call.relabelled(kind).expects(event) == call.expects(event),
        call.expects(event) ==> call.relabelled(kind).step(event) == (
            call.step(event).0.relabelled(kind),
            call.step(event).1.relabelled(kind),
        ),
{
}

/// All kinds of calls start in the same way.
pub proof fn kinds_of_calls_start_alike<E>(
    provider: ProviderView,
    call: CallKind,
    kind: CallKind,
    model: Option<Seq<char>>,
    total_credentials: nat,
)
    ensures
        ({
            let (fresh, first) = CallView::<E>::start(provider, call, model, total_credentials);
            CallView::<E>::start(provider, kind, model, total_credentials) == (
                fresh.relabelled(kind),
                first.relabelled(kind),
            )
        }),
{
}

/// All kinds of calls take the same course from one state on: they expect the same events and
/// ask for the same actions, but for how errors are labelled.
pub proof fn kinds_of_calls_take_the_same_course<E>(
    call: CallView<E>,
    events: Seq<EventView<E>>,
    kind: CallKind,
)
    ensures
        call.relabelled(kind).follows(events) == call.follows(events),
        call.follows(events) ==> {
            &&& call.relabelled(kind).after(events) == call.after(events).relabelled(kind)
            &&& call.relabelled(kind).actions(events) == call.actions(events).map_values(
                |action: ActionView<E>| action.relabelled(kind),
            )
        },
    decreases events.len(),
{
    let relabel = |action: ActionView<E>| action.relabelled(kind);
    if events.len() == 0 {
        assert(call.relabelled(kind).actions(events) =~= call.actions(events).map_values(relabel));
    } else {
        kinds_of_calls_go_on_alike(call, events[0], kind);
        if call.expects(events[0]) {
            let (next, action) = call.step(events[0]);
            let rest = events.drop_first();
            kinds_of_calls_take_the_same_course(next, rest, kind);
            assert((seq![action] + next.actions(rest)).map_values(relabel) =~= seq![
                action.relabelled(kind),
            ] + next.actions(rest).map_values(relabel));
        }
    }
}

} // verus!
