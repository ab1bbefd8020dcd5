//! How a call is named and how it can fail.
use crate::rate_limit::{RateLimitError, RateLimitErrorView};
use crate::status::{status_line, HttpStatus};
use crate::text::{decimal, decimal_text};
use vstd::prelude::*;
use vstd::string::StringExecFns;

verus! {

/// Which service a call is for, and whether its answer is streamed.
#[derive(Debug, Clone, Copy, PartialEq, Eq, Structural)]
pub enum CallKind {
    Mcp,
    Api { stream: bool },
}

impl CallKind {
    /// The name of this kind of call in messages.
    pub open spec fn name(self) -> Seq<char> {
        match self {
            CallKind::Mcp => "MCP"@,
            CallKind::Api { stream: true } => "流式 API"@,
            CallKind::Api { stream: false } => "非流式 API"@,
        }
    }

    /// The name of this kind of call in messages.
    pub fn label(self) -> (label: &'static str)
        ensures
            label@ == self.name(),
    {
        match self {
            CallKind::Mcp => "MCP",
            CallKind::Api { stream } => if stream {
                "流式 API"
            } else {
                "非流式 API"
            },
        }
    }
}

/// What a [`CallError`] says.
#[verifier::ext_equal]
pub enum CallErrorView<E> {
    /// Rate limits keep the request from being served.
    RateLimited(RateLimitErrorView),
    /// A credential asks for an endpoint that is not registered.
    UnknownEndpoint { name: Seq<char> },
    /// The upstream service refused the request.
    Refused { call: CallKind, status: u16, body: Seq<char> },
    /// The upstream service refused the request and no credential is left to try.
    CredentialsUsedUp { call: CallKind, status: u16, body: Seq<char> },
    /// Every try is spent and none of them left an error behind.
    OutOfTries { call: CallKind, max_retries: nat },
    /// An error that came from outside: no credential could be had, or the request not be sent.
    Outside(E),
}

/// Why a call failed. `E` is the type of the errors that come from outside.
#[derive(Debug)]
pub enum CallError<E> {
    /// Rate limits keep the request from being served.
    RateLimited(RateLimitError),
    /// A credential asks for an endpoint that is not registered.
    UnknownEndpoint { name: String },
    /// The upstream service refused the request.
    Refused { call: CallKind, status: HttpStatus, body: String },
    /// The upstream service refused the request and no credential is left to try.
    CredentialsUsedUp { call: CallKind, status: HttpStatus, body: String },
    /// Every try is spent and none of them left an error behind.
    OutOfTries { call: CallKind, max_retries: usize },
    /// An error that came from outside: no credential could be had, or the request not be sent.
    Outside(E),
}

impl<E> View for CallError<E> {
    type V = CallErrorView<E>;

    open spec fn view(&self) -> CallErrorView<E> {
        match *self {
            CallError::RateLimited(error) => CallErrorView::RateLimited(error@),
            CallError::UnknownEndpoint { name } => CallErrorView::UnknownEndpoint { name: name@ },
            CallError::Refused { call, status, body } => CallErrorView::Refused {
                call,
                status: status@,
                body: body@,
            },
            CallError::CredentialsUsedUp { call, status, body } =>
                CallErrorView::CredentialsUsedUp { call, status: status@, body: body@ },
            CallError::OutOfTries { call, max_retries } => CallErrorView::OutOfTries {
                call,
                max_retries: max_retries as nat,
            },
            CallError::Outside(error) => CallErrorView::Outside(error),
        }
    }
}

impl<E> CallErrorView<E> {
    /// If this is a rate limit, it says for how long to wait.
    pub open spec fn tells_when_to_retry(self) -> bool {
        self matches CallErrorView::RateLimited(error) ==> error.retry_after_seconds is Some
    }

    /// The message of this error; an error from outside has its own.
    pub open spec fn message(self) -> Option<Seq<char>> {
        match self {
            CallErrorView::RateLimited(error) => Some(error.message),
            CallErrorView::UnknownEndpoint { name } => Some("未知端点: "@ + name),
            CallErrorView::Refused { call, status, body } => Some(
                call.name() + " 请求失败: "@ + status_line(status) + " "@ + body,
            ),
            CallErrorView::CredentialsUsedUp { call, status, body } => Some(
                call.name() + " 请求失败（所有凭据已用尽）: "@ + status_line(status) + " "@ + body,
            ),
            CallErrorView::OutOfTries { call, max_retries } => Some(
                call.name() + " 请求失败：已达到最大重试次数（"@ + decimal(max_retries) + "次）"@,
            ),
            CallErrorView::Outside(_) => None,
        }
    }
}

fn refusal_text(call: CallKind, what: &str, status: &HttpStatus, body: &String) -> (text: String)
    ensures
        text@ == call.name() + what@ + status_line(status@) + " "@ + body@,
{
    let mut text = call.label().to_owned();
    text.append(what);
    text.append(status.line().as_str());
    text.append(" ");
    text.append(body.as_str());
    text
}

impl<E> CallError<E> {
    /// The message of this error; none for an error from outside, which has its own.
    pub fn message(&self) -> (message: Option<String>)
        ensures
            self@.message() == (match message {
                Some(text) => Some(text@),
                None => None,
            }),
    {
        match self {
            CallError::RateLimited(error) => Some(error.message().to_owned()),
            CallError::UnknownEndpoint { name } => {
                let mut text = "未知端点: ".to_owned();
                text.append(name.as_str());
                Some(text)
            },
            CallError::Refused { call, status, body } => Some(
                refusal_text(*call, " 请求失败: ", status, body),
            ),
            CallError::CredentialsUsedUp { call, status, body } => Some(
                refusal_text(*call, " 请求失败（所有凭据已用尽）: ", status, body),
            ),
            CallError::OutOfTries { call, max_retries } => {
                let mut text = call.label().to_owned();
                text.append(" 请求失败：已达到最大重试次数（");
                text.append(decimal_text(*max_retries).as_str());
                text.append("次）");
                Some(text)
            },
            CallError::Outside(_) => None,
        }
    }
}

/// Messages name MCP calls, streamed calls and other calls each in their own way.
pub proof fn calls_are_named(call: CallKind)
    ensures
        call is Mcp ==> call.name() == "MCP"@,
        call matches CallKind::Api { stream } ==> call.name() == (if stream {
            "流式 API"@
        } else {
            "非流式 API"@
        }),
{
}

/// The message of a refusal starts with the name of the call and ends with the status line, a
/// space and the whole body. It says besides whether the credentials are used up.
pub proof fn refusals_are_told_in_full<E>(call: CallKind, status: u16, body: Seq<char>)
    ensures
        (CallErrorView::<E>::Refused { call, status, body }).message() == Some(
            call.name() + (" 请求失败: "@ + (status_line(status) + (" "@ + body))),
        ),
        (CallErrorView::<E>::CredentialsUsedUp { call, status, body }).message() == Some(
            call.name() + (" 请求失败（所有凭据已用尽）: "@ + (status_line(status) + (" "@ + body))),
        ),
{
    let ends = status_line(status) + (" "@ + body);
    let refused = (CallErrorView::<E>::Refused { call, status, body }).message();
    let used_up = (CallErrorView::<E>::CredentialsUsedUp { call, status, body }).message();
    assert(refused->0 =~= call.name() + (" 请求失败: "@ + ends));
    assert(used_up->0 =~= call.name() + (" 请求失败（所有凭据已用尽）: "@ + ends));
}

/// The message of a rate limit is its own, that of an unknown endpoint ends with its name, and
/// that of a call which is out of tries says how many there were. An error from outside has no
/// message here.
pub proof fn other_errors_are_told<E>(
    limit: RateLimitErrorView,
    name: Seq<char>,
    call: CallKind,
    max_retries: nat,
    error: E,
)
    ensures
        CallErrorView::<E>::RateLimited(limit).message() == Some(limit.message),
        (CallErrorView::<E>::UnknownEndpoint { name }).message() == Some("未知端点: "@ + name),
        (CallErrorView::<E>::OutOfTries { call, max_retries }).message() == Some(
            call.name() + (" 请求失败：已达到最大重试次数（"@ + (decimal(max_retries) + "次）"@)),
        ),
        CallErrorView::Outside(error).message() is None,
{
    let out = (CallErrorView::<E>::OutOfTries { call, max_retries }).message();
    assert(out->0 =~= call.name() + (" 请求失败：已达到最大重试次数（"@ + (decimal(max_retries)
        + "次）"@)));
}

/// Refusals of the same call with the same status but different bodies have different messages.
pub proof fn messages_tell_bodies_apart<E>(
    call: CallKind,
    status: u16,
    body: Seq<char>,
    other: Seq<char>,
)
    requires
        (CallErrorView::<E>::Refused { call, status, body }).message() == (
        CallErrorView::<E>::Refused { call, status, body: other }).message(),
    ensures
        body == other,
{
    let start = call.name() + " 请求失败: "@ + status_line(status) + " "@;
    assert((start + body).skip(start.len() as int) =~= body);
    assert((start + other).skip(start.len() as int) =~= other);
}

/// A [`CallError`] says what it holds: nothing is left out, and nothing is changed.
pub proof fn errors_say_what_they_hold<E>(
    limit: RateLimitError,
    name: String,
    call: CallKind,
    status: HttpStatus,
    body: String,
    max_retries: usize,
    error: E,
)
    ensures
        CallError::<E>::RateLimited(limit)@ == CallErrorView::<E>::RateLimited(limit@),
        (CallError::<E>::UnknownEndpoint { name })@ == (CallErrorView::<E>::UnknownEndpoint {
            name: name@,
        }),
        (CallError::<E>::Refused { call, status, body })@ == (CallErrorView::<E>::Refused {
            call,
            status: status@,
            body: body@,
        }),
        (CallError::<E>::CredentialsUsedUp { call, status, body })@ == (
        CallErrorView::<E>::CredentialsUsedUp { call, status: status@, body: body@ }),
        (CallError::<E>::OutOfTries { call, max_retries })@ == (CallErrorView::<E>::OutOfTries {
            call,
            max_retries: max_retries as nat,
        }),
        CallError::Outside(error)@ == CallErrorView::Outside(error),
{
}

/// Only a rate limit can fail to tell when to try again, and it does if it names no time.
pub proof fn only_rate_limits_keep_the_time_back<E>(error: CallErrorView<E>)
    ensures
        !error.tells_when_to_retry() <==> (error matches CallErrorView::RateLimited(limit)
            && limit.retry_after_seconds is None),
{
}

} // verus!
