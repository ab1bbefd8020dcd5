//! A call under way.
use crate::clients::optional_text;
use crate::error::{CallError, CallKind};
use crate::json::model_of_request;
use crate::laws::{start_is_wf, step_keeps_wf};
use crate::protocol::{refusal_of, tries, ActionView, CallView, EventView, PhaseView, Refusal};
use crate::provider::{KiroProvider, MAX_RETRIES_PER_CREDENTIAL, MAX_TOTAL_RETRIES};
use crate::rate_limit::{RateLimitReason, UpstreamRateLimitKind};
use crate::status::HttpStatus;
use std::collections::{HashMap, HashSet};
use vstd::prelude::*;

verus! {

broadcast use vstd::std_specs::hash::group_hash_axioms;

/// What the status of a refusal calls for.
pub fn classify_refusal(status: HttpStatus) -> (refusal: Refusal)
    ensures
        refusal == refusal_of(status@),
{
    let code: u16 = status.as_u16();
    if code == 429 {
        Refusal::RateLimit
    } else if code == 402 {
        Refusal::Payment
    } else if code == 401 || code == 403 {
        Refusal::Credential
    } else if status.is_client_error() && code != 408 {
        Refusal::Request
    } else {
        Refusal::Transient
    }
}

/// How many tries a call makes when there are `total_credentials` credentials, and how often it
/// sends its request again.
pub fn max_tries(total_credentials: usize) -> (max: usize)
    ensures
        max == tries(total_credentials as nat),
{
    if total_credentials < MAX_TOTAL_RETRIES / MAX_RETRIES_PER_CREDENTIAL {
        total_credentials * MAX_RETRIES_PER_CREDENTIAL
    } else {
        MAX_TOTAL_RETRIES
    }
}

/// What came of an action.
#[derive(Debug)]
pub enum Event<E> {
    /// A credential was had; it asks for this endpoint.
    Acquired { id: u64, endpoint: Option<String> },
    /// No credential could be had.
    AcquireFailed { error: E },
    /// For how many seconds credentials stay rate limited, if any is.
    RetryAfter { seconds: Option<u64> },
    /// The report was made; `any` tells whether some credential can still be used.
    Availability { any: bool },
    /// The request could not be sent.
    SendFailed { error: E },
    /// The upstream service answered with this status.
    Responded { status: HttpStatus },
    /// The body of the answer, if it could be read.
    Body { text: Option<String> },
    /// What the endpoint says to the question on the body.
    Judged { yes: bool },
    /// The token was refreshed, or could not be.
    Refreshed { ok: bool },
    /// The pause is over.
    Slept,
}

impl<E> View for Event<E> {
    type V = EventView<E>;

    open spec fn view(&self) -> EventView<E> {
        match *self {
            Event::Acquired { id, endpoint } => EventView::Acquired {
                id,
                endpoint: optional_text(endpoint),
            },
            Event::AcquireFailed { error } => EventView::AcquireFailed { error },
            Event::RetryAfter { seconds } => EventView::RetryAfter { seconds },
            Event::Availability { any } => EventView::Availability { any },
            Event::SendFailed { error } => EventView::SendFailed { error },
            Event::Responded { status } => EventView::Responded { status: status@ },
            Event::Body { text } => EventView::Body { text: optional_text(text) },
            Event::Judged { yes } => EventView::Judged { yes },
            Event::Refreshed { ok } => EventView::Refreshed { ok },
            Event::Slept => EventView::Slept,
        }
    }
}

/// What is to be done next for a call.
#[derive(Debug)]
pub enum Action<E> {
    /// Take a credential that can serve the model of the call.
    Acquire,
    /// Ask for how long credentials stay rate limited.
    QueryRetryAfter,
    /// Report a failure of the credential.
    ReportFailure { id: u64 },
    /// Report that the quota of the credential is used up.
    ReportQuotaExhausted { id: u64 },
    /// Report that the credential is rate limited and to be set aside.
    ReportRateLimited { id: u64, cooldown_seconds: u64, reason: RateLimitReason },
    /// Send the request through this endpoint with the credential at hand.
    Send { endpoint: usize },
    /// Read the body of the answer.
    ReadBody,
    /// Ask the endpoint whether the body says that the monthly quota is used up.
    AskMonthlyLimit,
    /// Ask the endpoint whether the body says that the token is not valid.
    AskTokenInvalid,
    /// Get a new token for the credential.
    ForceRefresh { id: u64 },
    /// Wait as long as after try number `attempt`.
    Sleep { attempt: usize },
    /// Report a success of the credential and hand the answer to the caller: the call ends.
    Succeed { id: u64 },
    /// Hand the error to the caller: the call ends.
    Fail { error: CallError<E> },
}

impl<E> View for Action<E> {
    type V = ActionView<E>;

    open spec fn view(&self) -> ActionView<E> {
        match *self {
            Action::Acquire => ActionView::Acquire,
            Action::QueryRetryAfter => ActionView::QueryRetryAfter,
            Action::ReportFailure { id } => ActionView::ReportFailure { id },
            Action::ReportQuotaExhausted { id } => ActionView::ReportQuotaExhausted { id },
            Action::ReportRateLimited { id, cooldown_seconds, reason } =>
                ActionView::ReportRateLimited { id, cooldown_seconds, reason },
            Action::Send { endpoint } => ActionView::Send { endpoint: endpoint as int },
            Action::ReadBody => ActionView::ReadBody,
            Action::AskMonthlyLimit => ActionView::AskMonthlyLimit,
            Action::AskTokenInvalid => ActionView::AskTokenInvalid,
            Action::ForceRefresh { id } => ActionView::ForceRefresh { id },
            Action::Sleep { attempt } => ActionView::Sleep { attempt: attempt as nat },
            Action::Succeed { id } => ActionView::Succeed { id },
            Action::Fail { error } => ActionView::Fail { error: error@ },
        }
    }
}

#[derive(Debug)]
enum Phase<E> {
    Acquiring,
    CheckingLimits { error: E },
    AllLimited,
    RejectingEndpoint,
    Sending { id: u64, endpoint: usize },
    ReadingBody { id: u64, endpoint: usize, status: HttpStatus },
    CredentialPause { id: u64, endpoint: usize },
    Cooling { kind: UpstreamRateLimitKind },
    Cooled { kind: UpstreamRateLimitKind, available: bool },
    Protecting { kind: UpstreamRateLimitKind },
    JudgingQuota { id: u64, status: HttpStatus, body: String },
    JudgingToken { id: u64, status: HttpStatus, body: String },
    Refreshing { id: u64, status: HttpStatus, body: String },
    ReportingRefusal { status: HttpStatus, body: String },
    Pausing,
    Finished,
}

impl<E> View for Phase<E> {
    type V = PhaseView<E>;

    closed spec fn view(&self) -> PhaseView<E> {
        match *self {
            Phase::Acquiring => PhaseView::Acquiring,
            Phase::CheckingLimits { error } => PhaseView::CheckingLimits { error },
            Phase::AllLimited => PhaseView::AllLimited,
            Phase::RejectingEndpoint => PhaseView::RejectingEndpoint,
            Phase::Sending { id, endpoint } => PhaseView::Sending { id, endpoint: endpoint as int },
            Phase::ReadingBody { id, endpoint, status } => PhaseView::ReadingBody {
                id,
                endpoint: endpoint as int,
                status: status@,
            },
            Phase::CredentialPause { id, endpoint } => PhaseView::CredentialPause {
                id,
                endpoint: endpoint as int,
            },
            Phase::Cooling { kind } => PhaseView::Cooling { kind },
            Phase::Cooled { kind, available } => PhaseView::Cooled { kind, available },
            Phase::Protecting { kind } => PhaseView::Protecting { kind },
            Phase::JudgingQuota { id, status, body } => PhaseView::JudgingQuota {
                id,
                status: status@,
                body: body@,
            },
            Phase::JudgingToken { id, status, body } => PhaseView::JudgingToken {
                id,
                status: status@,
                body: body@,
            },
            Phase::Refreshing { id, status, body } => PhaseView::Refreshing {
                id,
                status: status@,
                body: body@,
            },
            Phase::ReportingRefusal { status, body } => PhaseView::ReportingRefusal {
                status: status@,
                body: body@,
            },
            Phase::Pausing => PhaseView::Pausing,
            Phase::Finished => PhaseView::Finished,
        }
    }
}

/// A call under way. `E` is the type of the errors that come from outside.
#[derive(Debug)]
pub struct RetryCall<'a, E> {
    provider: &'a KiroProvider,
    call: CallKind,
    model: Option<String>,
    max_retries: usize,
    attempt: usize,
    credential_attempt: usize,
    sends: usize,
    resent: HashMap<u64, usize>,
    cooled: usize,
    refreshed: HashSet<u64>,
    last_error: Option<CallError<E>>,
    phase: Phase<E>,
}

impl<'a, E> View for RetryCall<'a, E> {
    type V = CallView<E>;

    closed spec fn view(&self) -> CallView<E> {
        CallView {
            provider: self.provider@,
            call: self.call,
            model: optional_text(self.model),
            max_retries: self.max_retries as nat,
            attempt: self.attempt as nat,
            credential_attempt: self.credential_attempt as nat,
            sends: self.sends as nat,
            resent: self.resent@.map_values(|times: usize| times as nat),
            cooled: self.cooled as nat,
            refreshed: self.refreshed@,
            last_error: match self.last_error {
                Some(error) => Some(error@),
                None => None,
            },
            phase: self.phase@,
        }
    }
}

impl<'a, E> RetryCall<'a, E> {
    /// A call of the given kind for the given model, when there are `total_credentials`
    /// credentials, and what to do first for it.
    pub fn start(
        provider: &'a KiroProvider,
        call: CallKind,
        model: Option<String>,
        total_credentials: usize,
    ) -> (started: (RetryCall<'a, E>, Action<E>))
        ensures
            (started.0@, started.1@) == CallView::<E>::start(
                provider@,
                call,
                optional_text(model),
                total_credentials as nat,
            ),
            started.0@.wf(),
    {
        proof {
            use_type_invariant(provider);
            start_is_wf::<E>(provider@, call, optional_text(model), total_credentials as nat);
        }
        let max_retries: usize = max_tries(total_credentials);
        let mut fresh = RetryCall {
            provider,
            call,
            model,
            max_retries,
            attempt: 0,
            credential_attempt: 0,
            sends: 0,
            resent: HashMap::new(),
            cooled: 0,
            refreshed: HashSet::new(),
            last_error: None,
            phase: Phase::Acquiring,
        };
        if max_retries == 0 {
            let action = fresh.give_up();
            (fresh, action)
        } else {
            (fresh, Action::Acquire)
        }
    }

    fn fail(&mut self, error: CallError<E>) -> (action: Action<E>)
        ensures
            (final(self)@, action@) == old(self)@.fail(error@),
    {
        self.last_error = None;
        self.phase = Phase::Finished;
        Action::Fail { error }
    }

    fn give_up(&mut self) -> (action: Action<E>)
        ensures
            (final(self)@, action@) == old(self)@.give_up(),
    {
        let error = match self.last_error.take() {
            Some(error) => error,
            None => CallError::OutOfTries { call: self.call, max_retries: self.max_retries },
        };
        self.fail(error)
    }

    fn next_try(&mut self) -> (action: Action<E>)
        requires
            old(self)@.attempt < old(self)@.max_retries,
        ensures
            (final(self)@, action@) == old(self)@.next_try(),
    {
        if self.attempt + 1 < self.max_retries {
            self.attempt = self.attempt + 1;
            self.credential_attempt = 0;
            self.phase = Phase::Acquiring;
            Action::Acquire
        } else {
            self.give_up()
        }
    }

    fn next_try_after_pause(&mut self) -> (action: Action<E>)
        requires
            old(self)@.attempt < old(self)@.max_retries,
        ensures
            (final(self)@, action@) == old(self)@.next_try_after_pause(),
    {
        if self.attempt + 1 < self.max_retries {
            self.phase = Phase::Pausing;
            Action::Sleep { attempt: self.attempt }
        } else {
            self.give_up()
        }
    }

    fn may_send(&self, id: u64) -> (yes: bool)
        ensures
            yes == self@.may_send(id),
    {
        if self.sends > self.max_retries {
            return false;
        }
        match self.resent.get(&id) {
            Some(times) => *times < MAX_RETRIES_PER_CREDENTIAL,
            None => true,
        }
    }

    fn send(&mut self, id: u64, endpoint: usize) -> (action: Action<E>)
        requires
            old(self)@.may_send(id),
            old(self)@.max_retries <= MAX_TOTAL_RETRIES,
        ensures
            (final(self)@, action@) == old(self)@.send(id, endpoint as int),
    {
        let times: usize = match self.resent.get(&id) {
            Some(times) => *times + 1,
            None => 0,
        };
        self.sends = self.sends + 1;
        self.resent.insert(id, times);
        self.phase = Phase::Sending { id, endpoint };
        assert(self@.resent =~= old(self)@.resent.insert(id, times as nat));
        Action::Send { endpoint }
    }

    fn acquired(&mut self, id: u64, requested: Option<String>) -> (action: Action<E>)
        requires
            old(self)@.max_retries <= MAX_TOTAL_RETRIES,
            old(self)@.attempt < old(self)@.max_retries,
        ensures
            (final(self)@, action@) == old(self)@.acquired(id, optional_text(requested)),
    {
        let asked: Option<&str> = match &requested {
            Some(name) => Some(name.as_str()),
            None => None,
        };
        match self.provider.endpoint_for::<E>(asked) {
            Ok(endpoint) => if self.may_send(id) {
                self.send(id, endpoint)
            } else if self.sends <= self.max_retries {
                self.next_try()
            } else {
                self.give_up()
            },
            Err(error) => {
                self.last_error = Some(error);
                self.phase = Phase::RejectingEndpoint;
                Action::ReportFailure { id }
            },
        }
    }

    fn rate_limited(&mut self, id: u64, endpoint: usize, kind: UpstreamRateLimitKind) -> (action:
        Action<E>)
        requires
            old(self)@.cooled < old(self)@.provider.settings.most_cooled(),
        ensures
            (final(self)@, action@) == old(self)@.rate_limited(id, endpoint as int, kind),
    {
        let retries: usize = self.provider.retries_for_rate_limit_kind(kind);
        let cooldown_seconds: u64 = self.provider.cooldown_for_rate_limit_kind(kind);
        if self.credential_attempt < retries && self.may_send(id) {
            self.phase = Phase::CredentialPause { id, endpoint };
            Action::Sleep { attempt: self.credential_attempt }
        } else {
            self.cooled = self.cooled + 1;
            self.phase = Phase::Cooling { kind };
            Action::ReportRateLimited { id, cooldown_seconds, reason: kind.reason() }
        }
    }

    fn refused(&mut self, id: u64, endpoint: usize, status: HttpStatus, body: String) -> (action:
        Action<E>)
        requires
            old(self)@.attempt < old(self)@.max_retries,
            old(self)@.cooled < old(self)@.provider.settings.most_cooled(),
        ensures
            (final(self)@, action@) == old(self)@.refused(id, endpoint as int, status@, body@),
    {
        match classify_refusal(status) {
            Refusal::RateLimit => {
                let kind = KiroProvider::classify_rate_limit_body(body.as_str());
                self.rate_limited(id, endpoint, kind)
            },
            Refusal::Payment => {
                self.phase = Phase::JudgingQuota { id, status, body };
                Action::AskMonthlyLimit
            },
            Refusal::Credential => {
                self.phase = Phase::JudgingToken { id, status, body };
                Action::AskTokenInvalid
            },
            Refusal::Request => self.fail(CallError::Refused { call: self.call, status, body }),
            Refusal::Transient => {
                self.last_error = Some(CallError::Refused { call: self.call, status, body });
                self.next_try_after_pause()
            },
        }
    }

    fn cooled_down(
        &mut self,
        kind: UpstreamRateLimitKind,
        available: bool,
        retry_after: Option<u64>,
    ) -> (action: Action<E>)
        requires
            old(self)@.attempt < old(self)@.max_retries,
        ensures
            (final(self)@, action@) == old(self)@.cooled_down(kind, available, retry_after),
    {
        let cooldown: u64 = self.provider.cooldown_for_rate_limit_kind(kind);
        let error = CallError::RateLimited(
            KiroProvider::all_credentials_rate_limit_error(retry_after, Some(cooldown)),
        );
        if !available {
            return self.fail(error);
        }
        self.last_error = Some(error);
        if self.cooled >= self.provider.rate_limit_max_cooled_credentials_per_request() {
            self.phase = Phase::Protecting { kind };
            Action::QueryRetryAfter
        } else {
            self.next_try()
        }
    }

    fn token_judged(&mut self, id: u64, status: HttpStatus, body: String, invalid: bool) -> (action:
        Action<E>)
        ensures
            (final(self)@, action@) == old(self)@.token_judged(id, status@, body@, invalid),
    {
        if invalid && !self.refreshed.contains(&id) {
            self.refreshed.insert(id);
            self.phase = Phase::Refreshing { id, status, body };
            Action::ForceRefresh { id }
        } else {
            self.phase = Phase::ReportingRefusal { status, body };
            Action::ReportFailure { id }
        }
    }

    /// Whether the event can come now.
    pub fn expects(&self, event: &Event<E>) -> (yes: bool)
        ensures
            yes == self@.expects(event@),
    {
        match (&self.phase, event) {
            (Phase::Acquiring, Event::Acquired { .. }) => true,
            (Phase::Acquiring, Event::AcquireFailed { .. }) => true,
            (Phase::CheckingLimits { .. }, Event::RetryAfter { .. }) => true,
            (Phase::AllLimited, Event::RetryAfter { .. }) => true,
            (Phase::RejectingEndpoint, Event::Availability { .. }) => true,
            (Phase::Sending { .. }, Event::SendFailed { .. }) => true,
            (Phase::Sending { .. }, Event::Responded { .. }) => true,
            (Phase::ReadingBody { .. }, Event::Body { .. }) => true,
            (Phase::CredentialPause { .. }, Event::Slept) => true,
            (Phase::Cooling { .. }, Event::Availability { .. }) => true,
            (Phase::Cooled { .. }, Event::RetryAfter { .. }) => true,
            (Phase::Protecting { .. }, Event::RetryAfter { .. }) => true,
            (Phase::JudgingQuota { .. }, Event::Judged { .. }) => true,
            (Phase::JudgingToken { .. }, Event::Judged { .. }) => true,
            (Phase::Refreshing { .. }, Event::Refreshed { .. }) => true,
            (Phase::ReportingRefusal { .. }, Event::Availability { .. }) => true,
            (Phase::Pausing, Event::Slept) => true,
            _ => false,
        }
    }

    /// Takes in what came of the last action and says what to do next.
    pub fn step(&mut self, event: Event<E>) -> (action: Action<E>)
        requires
            old(self)@.wf(),
            old(self)@.expects(event@),
        ensures
            (final(self)@, action@) == old(self)@.step(event@),
            final(self)@.wf(),
    {
        proof {
            step_keeps_wf(self@, event@);
        }
        let mut phase = Phase::Finished;
        std::mem::swap(&mut phase, &mut self.phase);
        match (phase, event) {
            (Phase::Acquiring, Event::Acquired { id, endpoint }) => self.acquired(id, endpoint),
            (Phase::Acquiring, Event::AcquireFailed { error }) => {
                self.phase = Phase::CheckingLimits { error };
                Action::QueryRetryAfter
            },
            (Phase::CheckingLimits { error }, Event::RetryAfter { seconds }) => if seconds.is_some() {
                self.phase = Phase::AllLimited;
                Action::QueryRetryAfter
            } else {
                self.last_error = Some(CallError::Outside(error));
                self.next_try()
            },
            (Phase::AllLimited, Event::RetryAfter { seconds }) => {
                let cooldown: u64 = self.provider.rate_limit_cooldown();
                self.fail(
                    CallError::RateLimited(
                        KiroProvider::all_credentials_rate_limit_error(seconds, Some(cooldown)),
                    ),
                )
            },
            (Phase::RejectingEndpoint, Event::Availability { .. }) => self.next_try(),
            (Phase::Sending { .. }, Event::SendFailed { error }) => {
                self.last_error = Some(CallError::Outside(error));
                self.next_try_after_pause()
            },
            (Phase::Sending { id, endpoint }, Event::Responded { status }) => if status.is_success() {
                self.last_error = None;
                self.phase = Phase::Finished;
                Action::Succeed { id }
            } else {
                self.phase = Phase::ReadingBody { id, endpoint, status };
                Action::ReadBody
            },
            (Phase::ReadingBody { id, endpoint, status }, Event::Body { text }) => {
                let body = match text {
                    Some(body) => body,
                    None => String::new(),
                };
                self.refused(id, endpoint, status, body)
            },
            (Phase::CredentialPause { id, endpoint }, Event::Slept) => {
                self.credential_attempt = self.credential_attempt + 1;
                self.send(id, endpoint)
            },
            (Phase::Cooling { kind }, Event::Availability { any }) => {
                self.phase = Phase::Cooled { kind, available: any };
                Action::QueryRetryAfter
            },
            (Phase::Cooled { kind, available }, Event::RetryAfter { seconds }) => self.cooled_down(
                kind,
                available,
                seconds,
            ),
            (Phase::Protecting { kind }, Event::RetryAfter { seconds }) => {
                let cooldown: u64 = self.provider.cooldown_for_rate_limit_kind(kind);
                self.fail(
                    CallError::RateLimited(
                        KiroProvider::per_request_rate_limit_error(seconds, Some(cooldown)),
                    ),
                )
            },
            (Phase::JudgingQuota { id, status, body }, Event::Judged { yes }) => if yes {
                self.phase = Phase::ReportingRefusal { status, body };
                Action::ReportQuotaExhausted { id }
            } else {
                self.fail(CallError::Refused { call: self.call, status, body })
            },
            (Phase::JudgingToken { id, status, body }, Event::Judged { yes }) => self.token_judged(
                id,
                status,
                body,
                yes,
            ),
            (Phase::Refreshing { id, status, body }, Event::Refreshed { ok }) => if ok {
                self.next_try()
            } else {
                self.phase = Phase::ReportingRefusal { status, body };
                Action::ReportFailure { id }
            },
            (Phase::ReportingRefusal { status, body }, Event::Availability { any }) => if any {
                self.last_error = Some(CallError::Refused { call: self.call, status, body });
                self.next_try()
            } else {
                self.fail(CallError::CredentialsUsedUp { call: self.call, status, body })
            },
            (Phase::Pausing, Event::Slept) => self.next_try(),
            _ => vstd::pervasive::unreached(),
        }
    }

    /// Which service the call is for, and whether its answer is streamed.
    pub fn kind(&self) -> (kind: CallKind)
        ensures
            kind == self@.call,
    {
        self.call
    }

    /// The number of this try, counted from 0.
    pub fn attempt(&self) -> (attempt: usize)
        ensures
            attempt == self@.attempt,
    {
        self.attempt
    }

    /// How many tries the call makes at most.
    pub fn max_retries(&self) -> (max_retries: usize)
        ensures
            max_retries == self@.max_retries,
    {
        self.max_retries
    }

    /// The body of the refusal that the endpoint is asked about, while it is asked.
    pub fn body_in_question(&self) -> (body: Option<&str>)
        ensures
            self@.body_in_question() == (match body {
                Some(text) => Some(text@),
                None => None,
            }),
    {
        match &self.phase {
            Phase::JudgingQuota { body, .. } => Some(body.as_str()),
            Phase::JudgingToken { body, .. } => Some(body.as_str()),
            _ => None,
        }
    }

    /// The model that credentials are to serve, if the request names one.
    pub fn model(&self) -> (model: Option<&str>)
        ensures
            self@.model == (match model {
                Some(m) => Some(m@),
                None => None,
            }),
    {
        match &self.model {
            Some(m) => Some(m.as_str()),
            None => None,
        }
    }
}

impl KiroProvider {
    /// Starts a request to the API whose answer comes in one piece.
    pub fn call_api<E>(&self, request_body: &str, total_credentials: usize) -> (started: (
        RetryCall<'_, E>,
        Action<E>,
    ))
        ensures
            (started.0@, started.1@) == CallView::<E>::start(
                self@,
                CallKind::Api { stream: false },
                model_of_request(request_body@),
                total_credentials as nat,
            ),
            started.0@.wf(),
    {
        self.call_api_with_retry(request_body, false, total_credentials)
    }

    /// Starts a request to the API whose answer is streamed.
    pub fn call_api_stream<E>(&self, request_body: &str, total_credentials: usize) -> (started: (
        RetryCall<'_, E>,
        Action<E>,
    ))
        ensures
            (started.0@, started.1@) == CallView::<E>::start(
                self@,
                CallKind::Api { stream: true },
                model_of_request(request_body@),
                total_credentials as nat,
            ),
            started.0@.wf(),
    {
        self.call_api_with_retry(request_body, true, total_credentials)
    }

    /// Starts an MCP request (a tool call such as a web search). It is not bound to a model, so
    /// that any credential can serve it.
    pub fn call_mcp<E>(&self, total_credentials: usize) -> (started: (RetryCall<'_, E>, Action<E>))
        ensures
            (started.0@, started.1@) == CallView::<E>::start(
                self@,
                CallKind::Mcp,
                None,
                total_credentials as nat,
            ),
            started.0@.wf(),
    {
        RetryCall::start(self, CallKind::Mcp, None, total_credentials)
    }

    fn call_api_with_retry<E>(
        &self,
        request_body: &str,
        is_stream: bool,
        total_credentials: usize,
    ) -> (started: (RetryCall<'_, E>, Action<E>))
        ensures
            (started.0@, started.1@) == CallView::<E>::start(
                self@,
                CallKind::Api { stream: is_stream },
                model_of_request(request_body@),
                total_credentials as nat,
            ),
            started.0@.wf(),
    {
        let model = Self::extract_model_from_request(request_body);
        RetryCall::start(self, CallKind::Api { stream: is_stream }, model, total_credentials)
    }
}

} // verus!
