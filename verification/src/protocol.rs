//! How a call goes on: a state machine over what is done for the call and what came of it.
//!
//! A call tries credentials one after the other. Each try takes a credential, sends the request
//! and looks at the answer. All work with effects stands outside: the machine says what to do
//! next ([`ActionView`]) and is told what came of it ([`EventView`]).
use crate::error::{CallErrorView, CallKind};
use crate::provider::{
    all_limited_message, call_limited_message, limited, ProviderView, MAX_RETRIES_PER_CREDENTIAL,
    MAX_TOTAL_RETRIES,
};
use crate::rate_limit::{kind_of_body, RateLimitReason, UpstreamRateLimitKind};
use crate::status::{is_client_error_code, is_success_code};
use vstd::prelude::*;

verus! {

/// What the status of a refusal calls for.
#[derive(Debug, Clone, Copy, PartialEq, Eq, Structural)]
pub enum Refusal {
    /// The credential has run into a rate limit.
    RateLimit,
    /// Payment is required: the quota of the credential may be used up.
    Payment,
    /// The credential or its token was rejected.
    Credential,
    /// The request itself is at fault, so that another try is of no use.
    Request,
    /// The upstream service has trouble that may pass.
    Transient,
}

/// What the status code of a refusal calls for.
pub open spec fn refusal_of(code: u16) -> Refusal {
    if code == 429 {
        Refusal::RateLimit
    } else if code == 402 {
        Refusal::Payment
    } else if code == 401 || code == 403 {
        Refusal::Credential
    } else if is_client_error_code(code) && code != 408 {
        Refusal::Request
    } else {
        Refusal::Transient
    }
}

/// How many tries a call makes when there are `total_credentials` credentials, and how often it
/// sends its request again.
pub open spec fn tries(total_credentials: nat) -> nat {
    let wanted = total_credentials * MAX_RETRIES_PER_CREDENTIAL as nat;
    if wanted < MAX_TOTAL_RETRIES {
        wanted
    } else {
        MAX_TOTAL_RETRIES as nat
    }
}

/// What a call waits for.
#[verifier::ext_equal]
pub enum PhaseView<E> {
    /// A credential.
    Acquiring,
    /// Whether rate limits are why no credential could be had.
    CheckingLimits { error: E },
    /// How long every credential stays limited.
    AllLimited,
    /// The report that the endpoint of the credential is not registered.
    RejectingEndpoint,
    /// The answer to the request.
    Sending { id: u64, endpoint: int },
    /// The body of a refusal.
    ReadingBody { id: u64, endpoint: int, status: u16 },
    /// The end of the pause before the request is sent again with the same credential.
    CredentialPause { id: u64, endpoint: int },
    /// The report that the credential is rate limited.
    Cooling { kind: UpstreamRateLimitKind },
    /// How long credentials stay limited, to be remembered.
    Cooled { kind: UpstreamRateLimitKind, available: bool },
    /// How long credentials stay limited, to end the call with.
    Protecting { kind: UpstreamRateLimitKind },
    /// Whether the refusal says that the monthly quota is used up.
    JudgingQuota { id: u64, status: u16, body: Seq<char> },
    /// Whether the refusal says that the token is not valid.
    JudgingToken { id: u64, status: u16, body: Seq<char> },
    /// The new token of the credential.
    Refreshing { id: u64, status: u16, body: Seq<char> },
    /// The report that the credential was refused.
    ReportingRefusal { status: u16, body: Seq<char> },
    /// The end of the pause before the next try.
    Pausing,
    /// Nothing: the call has ended.
    Finished,
}

/// What came of an action.
#[verifier::ext_equal]
pub enum EventView<E> {
    /// A credential was had; it asks for this endpoint.
    Acquired { id: u64, endpoint: Option<Seq<char>> },
    /// No credential could be had.
    AcquireFailed { error: E },
    /// For how many seconds credentials stay rate limited, if any is.
    RetryAfter { seconds: Option<u64> },
    /// The report was made; `any` tells whether some credential can still be used.
    Availability { any: bool },
    /// The request could not be sent.
    SendFailed { error: E },
    /// The upstream service answered with this status.
    Responded { status: u16 },
    /// The body of the answer, if it could be read.
    Body { text: Option<Seq<char>> },
    /// What the endpoint says to the question on the body.
    Judged { yes: bool },
    /// The token was refreshed, or could not be.
    Refreshed { ok: bool },
    /// The pause is over.
    Slept,
}

/// What is to be done next for a call.
#[verifier::ext_equal]
pub enum ActionView<E> {
    /// Take a credential that can serve the model of the call.
    Acquire,
    /// Ask for how long credentials stay rate limited.
    QueryRetryAfter,
    /// Report a failure of the credential.
    ReportFailure { id: u64 },
    /// Report that the quota of the credential is used up.
    ReportQuotaExhausted { id: u64 },
    /// Report that the credential is rate limited and to be set aside.
    ReportRateLimited { id: u64, cooldown_seconds: u64, reason: RateLimitReason },
    /// Send the request through this endpoint with the credential at hand.
    Send { endpoint: int },
    /// Read the body of the answer.
    ReadBody,
    /// Ask the endpoint whether the body says that the monthly quota is used up.
    AskMonthlyLimit,
    /// Ask the endpoint whether the body says that the token is not valid.
    AskTokenInvalid,
    /// Get a new token for the credential.
    ForceRefresh { id: u64 },
    /// Wait as long as after try number `attempt`.
    Sleep { attempt: nat },
    /// Report a success of the credential and hand the answer to the caller: the call ends.
    Succeed { id: u64 },
    /// Hand the error to the caller: the call ends.
    Fail { error: CallErrorView<E> },
}

/// Where a call stands.
#[verifier::ext_equal]
pub struct CallView<E> {
    pub provider: ProviderView,
    pub call: CallKind,
    /// The model that credentials are to serve.
    pub model: Option<Seq<char>>,
    /// How many tries the call makes at most, and how often it sends its request again at most.
    pub max_retries: nat,
    /// The number of this try, counted from 0.
    pub attempt: nat,
    /// How often the request was sent again with the credential of this try.
    pub credential_attempt: nat,
    /// How often the request was sent in all.
    pub sends: nat,
    /// How often the request was sent again with each credential that it was sent with.
    pub resent: Map<u64, nat>,
    /// How many credentials the call has set aside.
    pub cooled: nat,
    /// The credentials whose token the call has had refreshed.
    pub refreshed: Set<u64>,
    /// The error that the last try left behind.
    pub last_error: Option<CallErrorView<E>>,
    pub phase: PhaseView<E>,
}

impl<E> CallView<E> {
    /// A call before anything was done for it, and what to do first.
    pub open spec fn start(
        provider: ProviderView,
        call: CallKind,
        model: Option<Seq<char>>,
        total_credentials: nat,
    ) -> (CallView<E>, ActionView<E>) {
        let fresh = CallView {
            provider,
            call,
            model,
            max_retries: tries(total_credentials),
            attempt: 0,
            credential_attempt: 0,
            sends: 0,
            resent: Map::empty(),
            cooled: 0,
            refreshed: Set::empty(),
            last_error: None,
            phase: PhaseView::Acquiring,
        };
        if fresh.max_retries == 0 {
            fresh.give_up()
        } else {
            (fresh, ActionView::Acquire)
        }
    }

    /// This call in another phase.
    pub open spec fn wait(self, phase: PhaseView<E>) -> CallView<E> {
        CallView { phase, ..self }
    }

    /// This call with an error remembered.
    pub open spec fn remember(self, error: CallErrorView<E>) -> CallView<E> {
        CallView { last_error: Some(error), ..self }
    }

    /// The call ends with this error.
    pub open spec fn fail(self, error: CallErrorView<E>) -> (CallView<E>, ActionView<E>) {
        (
            CallView { last_error: None, phase: PhaseView::Finished, ..self },
            ActionView::Fail { error },
        )
    }

    /// The call ends with the error that was remembered last, if any was.
    pub open spec fn give_up(self) -> (CallView<E>, ActionView<E>) {
        self.fail(
            match self.last_error {
                Some(error) => error,
                None => CallErrorView::OutOfTries {
                    call: self.call,
                    max_retries: self.max_retries,
                },
            },
        )
    }

    /// A further try would still be within the limit.
    pub open spec fn has_tries_left(self) -> bool {
        self.attempt + 1 < self.max_retries
    }

    /// The call goes on with the next try, or ends if this was the last one.
    pub open spec fn next_try(self) -> (CallView<E>, ActionView<E>) {
        if self.has_tries_left() {
            (
                CallView {
                    attempt: self.attempt + 1,
                    credential_attempt: 0,
                    phase: PhaseView::Acquiring,
                    ..self
                },
                ActionView::Acquire,
            )
        } else {
            self.give_up()
        }
    }

    /// The call goes on with the next try after a pause, or ends if this was the last one.
    pub open spec fn next_try_after_pause(self) -> (CallView<E>, ActionView<E>) {
        if self.has_tries_left() {
            (self.wait(PhaseView::Pausing), ActionView::Sleep { attempt: self.attempt })
        } else {
            self.give_up()
        }
    }

    /// The error that every credential is rate limited.
    pub open spec fn all_limited(
        self,
        retry_after: Option<u64>,
        kind: UpstreamRateLimitKind,
    ) -> CallErrorView<E> {
        CallErrorView::RateLimited(
            limited(
                all_limited_message(),
                retry_after,
                Some(self.provider.settings.cooldown(kind)),
            ),
        )
    }

    /// The error that this call has run into too many limits.
    pub open spec fn call_limited(
        self,
        retry_after: Option<u64>,
        kind: UpstreamRateLimitKind,
    ) -> CallErrorView<E> {
        CallErrorView::RateLimited(
            limited(
                call_limited_message(),
                retry_after,
                Some(self.provider.settings.cooldown(kind)),
            ),
        )
    }

    /// The call has not used up its retries.
    pub open spec fn has_sends_left(self) -> bool {
        self.sends <= self.max_retries
    }

    /// The request may be sent with this credential: neither the credential nor the call has
    /// used up its retries.
    pub open spec fn may_send(self, id: u64) -> bool {
        &&& self.has_sends_left()
        &&& self.resent.contains_key(id) ==> self.resent[id] < MAX_RETRIES_PER_CREDENTIAL
    }

    /// Send the request with this credential, and keep count of it.
    pub open spec fn send(self, id: u64, endpoint: int) -> (CallView<E>, ActionView<E>) {
        (
            CallView {
                sends: self.sends + 1,
                resent: self.resent.insert(
                    id,
                    if self.resent.contains_key(id) {
                        self.resent[id] + 1
                    } else {
                        0
                    },
                ),
                phase: PhaseView::Sending { id, endpoint },
                ..self
            },
            ActionView::Send { endpoint },
        )
    }

    /// A credential was had: send the request through its endpoint, or report the credential if
    /// there is no such endpoint. A credential whose retries are used up is passed over; the call
    /// ends if its own are.
    pub open spec fn acquired(
        self,
        id: u64,
        requested: Option<Seq<char>>,
    ) -> (CallView<E>, ActionView<E>) {
        match self.provider.endpoint(requested) {
            Some(endpoint) => if self.may_send(id) {
                self.send(id, endpoint)
            } else if self.has_sends_left() {
                self.next_try()
            } else {
                self.give_up()
            },
            None => (
                self.remember(
                    CallErrorView::UnknownEndpoint {
                        name: self.provider.endpoint_name(requested),
                    },
                ).wait(PhaseView::RejectingEndpoint),
                ActionView::ReportFailure { id },
            ),
        }
    }

    /// The request ran into a rate limit: send it again with the same credential as often as
    /// the kind of limit, the credential and the call allow, then set the credential aside.
    pub open spec fn rate_limited(
        self,
        id: u64,
        endpoint: int,
        kind: UpstreamRateLimitKind,
    ) -> (CallView<E>, ActionView<E>) {
        if self.credential_attempt < self.provider.settings.retries(kind) && self.may_send(id) {
            (
                self.wait(PhaseView::CredentialPause { id, endpoint }),
                ActionView::Sleep { attempt: self.credential_attempt },
            )
        } else {
            (
                CallView { cooled: self.cooled + 1, phase: PhaseView::Cooling { kind }, ..self },
                ActionView::ReportRateLimited {
                    id,
                    cooldown_seconds: self.provider.settings.cooldown(kind),
                    reason: kind.recorded_reason(),
                },
            )
        }
    }

    /// The upstream service refused the request.
    pub open spec fn refused(
        self,
        id: u64,
        endpoint: int,
        status: u16,
        body: Seq<char>,
    ) -> (CallView<E>, ActionView<E>) {
        let error = CallErrorView::Refused { call: self.call, status, body };
        match refusal_of(status) {
            Refusal::RateLimit => self.rate_limited(id, endpoint, kind_of_body(body)),
            Refusal::Payment => (
                self.wait(PhaseView::JudgingQuota { id, status, body }),
                ActionView::AskMonthlyLimit,
            ),
            Refusal::Credential => (
                self.wait(PhaseView::JudgingToken { id, status, body }),
                ActionView::AskTokenInvalid,
            ),
            Refusal::Request => self.fail(error),
            Refusal::Transient => self.remember(error).next_try_after_pause(),
        }
    }

    /// A credential was set aside: go on with another one, unless none is left or the call has
    /// set aside too many.
    pub open spec fn cooled_down(
        self,
        kind: UpstreamRateLimitKind,
        available: bool,
        retry_after: Option<u64>,
    ) -> (CallView<E>, ActionView<E>) {
        let error = self.all_limited(retry_after, kind);
        if !available {
            self.fail(error)
        } else if self.cooled >= self.provider.settings.most_cooled() {
            (
                self.remember(error).wait(PhaseView::Protecting { kind }),
                ActionView::QueryRetryAfter,
            )
        } else {
            self.remember(error).next_try()
        }
    }

    /// The endpoint has said whether the token of the credential is no longer valid: refresh it,
    /// once for each credential, else report the credential.
    pub open spec fn token_judged(
        self,
        id: u64,
        status: u16,
        body: Seq<char>,
        invalid: bool,
    ) -> (CallView<E>, ActionView<E>) {
        if invalid && !self.refreshed.contains(id) {
            (
                CallView {
                    refreshed: self.refreshed.insert(id),
                    phase: PhaseView::Refreshing { id, status, body },
                    ..self
                },
                ActionView::ForceRefresh { id },
            )
        } else {
            (
                self.wait(PhaseView::ReportingRefusal { status, body }),
                ActionView::ReportFailure { id },
            )
        }
    }

    /// What happens in this phase on this event, if the event belongs to the phase.
    pub open spec fn transition(self, event: EventView<E>) -> Option<
        (CallView<E>, ActionView<E>),
    > {
        match (self.phase, event) {
            (PhaseView::Acquiring, EventView::Acquired { id, endpoint }) => Some(
                self.acquired(id, endpoint),
            ),
            (PhaseView::Acquiring, EventView::AcquireFailed { error }) => Some(
                (self.wait(PhaseView::CheckingLimits { error }), ActionView::QueryRetryAfter),
            ),
            (PhaseView::CheckingLimits { error }, EventView::RetryAfter { seconds }) => Some(
                if seconds is Some {
                    (self.wait(PhaseView::AllLimited), ActionView::QueryRetryAfter)
                } else {
                    self.remember(CallErrorView::Outside(error)).next_try()
                },
            ),
            (PhaseView::AllLimited, EventView::RetryAfter { seconds }) => Some(
                self.fail(self.all_limited(seconds, UpstreamRateLimitKind::Normal)),
            ),
            (PhaseView::RejectingEndpoint, EventView::Availability { .. }) => Some(
                self.next_try(),
            ),
            (PhaseView::Sending { .. }, EventView::SendFailed { error }) => Some(
                self.remember(CallErrorView::Outside(error)).next_try_after_pause(),
            ),
            (PhaseView::Sending { id, endpoint }, EventView::Responded { status }) => Some(
                if is_success_code(status) {
                    (
                        CallView { last_error: None, phase: PhaseView::Finished, ..self },
                        ActionView::Succeed { id },
                    )
                } else {
                    (
                        self.wait(PhaseView::ReadingBody { id, endpoint, status }),
                        ActionView::ReadBody,
                    )
                },
            ),
            (PhaseView::ReadingBody { id, endpoint, status }, EventView::Body { text }) => Some(
                self.refused(
                    id,
                    endpoint,
                    status,
                    match text {
                        Some(body) => body,
                        None => Seq::empty(),
                    },
                ),
            ),
            (PhaseView::CredentialPause { id, endpoint }, EventView::Slept) => Some(
                CallView { credential_attempt: self.credential_attempt + 1, ..self }.send(
                    id,
                    endpoint,
                ),
            ),
            (PhaseView::Cooling { kind }, EventView::Availability { any }) => Some(
                (
                    self.wait(PhaseView::Cooled { kind, available: any }),
                    ActionView::QueryRetryAfter,
                ),
            ),
            (PhaseView::Cooled { kind, available }, EventView::RetryAfter { seconds }) => Some(
                self.cooled_down(kind, available, seconds),
            ),
            (PhaseView::Protecting { kind }, EventView::RetryAfter { seconds }) => Some(
                self.fail(self.call_limited(seconds, kind)),
            ),
            (PhaseView::JudgingQuota { id, status, body }, EventView::Judged { yes }) => Some(
                if yes {
                    (
                        self.wait(PhaseView::ReportingRefusal { status, body }),
                        ActionView::ReportQuotaExhausted { id },
                    )
                } else {
                    self.fail(CallErrorView::Refused { call: self.call, status, body })
                },
            ),
            (PhaseView::JudgingToken { id, status, body }, EventView::Judged { yes }) => Some(
                self.token_judged(id, status, body, yes),
            ),
            (PhaseView::Refreshing { id, status, body }, EventView::Refreshed { ok }) => Some(
                if ok {
                    self.next_try()
                } else {
                    (
                        self.wait(PhaseView::ReportingRefusal { status, body }),
                        ActionView::ReportFailure { id },
                    )
                },
            ),
            (PhaseView::ReportingRefusal { status, body }, EventView::Availability { any }) => Some(
                if any {
                    self.remember(
                        CallErrorView::Refused { call: self.call, status, body },
                    ).next_try()
                } else {
                    self.fail(CallErrorView::CredentialsUsedUp { call: self.call, status, body })
                },
            ),
            (PhaseView::Pausing, EventView::Slept) => Some(self.next_try()),
            _ => None,
        }
    }

    /// The event can come in this phase.
    pub open spec fn expects(self, event: EventView<E>) -> bool {
        self.transition(event) is Some
    }

    /// The call after an event that it expects, and what to do next.
    pub open spec fn step(self, event: EventView<E>) -> (CallView<E>, ActionView<E>)
        recommends
            self.expects(event),
    {
        self.transition(event)->0
    }

    /// The body of the refusal that the endpoint is asked about, while it is asked.
    pub open spec fn body_in_question(self) -> Option<Seq<char>> {
        match self.phase {
            PhaseView::JudgingQuota { body, .. } => Some(body),
            PhaseView::JudgingToken { body, .. } => Some(body),
            _ => None,
        }
    }

    /// What holds of a call at all times: the tries, the sends, those with each credential and
    /// the credentials set aside are within their limits, a rate limit that is remembered says when to try again, and each phase
    /// stands where it can be reached.
    pub open spec fn wf(self) -> bool {
        let settings = self.provider.settings;
        &&& self.provider.wf()
        &&& self.max_retries <= MAX_TOTAL_RETRIES
        &&& self.credential_attempt <= settings.most_retries()
        &&& self.sends <= self.max_retries + 1
        &&& forall|id: u64| #[trigger]
            self.resent.contains_key(id) ==> self.resent[id] <= MAX_RETRIES_PER_CREDENTIAL
        &&& self.phase !is Finished ==> self.attempt < self.max_retries
        &&& self.last_error matches Some(error) ==> error.tells_when_to_retry()
        &&& match self.phase {
            PhaseView::Finished => self.last_error is None && self.cooled <= settings.most_cooled(),
            PhaseView::Cooling { .. } | PhaseView::Cooled { .. } => 1 <= self.cooled
                <= settings.most_cooled(),
            PhaseView::Protecting { .. } => self.cooled == settings.most_cooled(),
            _ => self.cooled < settings.most_cooled(),
        }
        &&& match self.phase {
            PhaseView::Sending { endpoint, .. } => 0 <= endpoint < self.provider.endpoints.len(),
            PhaseView::ReadingBody { endpoint, status, .. } => {
                &&& 0 <= endpoint < self.provider.endpoints.len()
                &&& !is_success_code(status)
            },
            PhaseView::CredentialPause { id, endpoint } => {
                &&& 0 <= endpoint < self.provider.endpoints.len()
                &&& self.may_send(id)
                &&& self.credential_attempt < settings.most_retries()
            },
            PhaseView::RejectingEndpoint => self.last_error is Some,
            PhaseView::JudgingQuota { status, .. } => refusal_of(status) is Payment,
            PhaseView::JudgingToken { status, .. } => refusal_of(status) is Credential,
            PhaseView::Refreshing { id, status, .. } => {
                &&& refusal_of(status) is Credential
                &&& self.refreshed.contains(id)
            },
            PhaseView::ReportingRefusal { status, .. } => refusal_of(status) is Payment
                || refusal_of(status) is Credential,
            PhaseView::Pausing => self.last_error is Some && self.has_tries_left(),
            _ => true,
        }
    }
}

} // verus!
