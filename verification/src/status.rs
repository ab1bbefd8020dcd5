//! HTTP status codes.
use crate::text::{decimal, numeral_value, numerals_read_back};
use vstd::prelude::*;

verus! {

/// An HTTP status code: a number of three digits.
#[derive(Debug, Clone, Copy)]
pub struct HttpStatus {
    code: u16,
}

impl View for HttpStatus {
    type V = u16;

    closed spec fn view(&self) -> u16 {
        self.code
    }
}

/// The codes of success, 200 to 299.
pub open spec fn is_success_code(code: u16) -> bool {
    200 <= code < 300
}

/// The codes that blame the request, 400 to 499.
pub open spec fn is_client_error_code(code: u16) -> bool {
    400 <= code < 500
}

/// The codes that blame the server, 500 to 599.
pub open spec fn is_server_error_code(code: u16) -> bool {
    500 <= code < 600
}

/// The reason phrase that `reqwest::StatusCode` shows behind a code.
pub uninterp spec fn reason_phrase(code: u16) -> Seq<char>;

/// A status code and its reason phrase, as error messages show it.
pub open spec fn status_line(code: u16) -> Seq<char> {
    decimal(code as nat) + " "@ + reason_phrase(code)
}

/// Calls `to_string` on the `reqwest::StatusCode` with the given number. Claims that the text
/// is the number in decimal, a space, and a phrase that depends on the number alone.
#[verifier::external_body]
fn show_status(code: u16) -> (line: String)
    requires
        100 <= code <= 999,
    ensures
        line@ == decimal(code as nat) + " "@ + reason_phrase(code),
{
    reqwest::StatusCode::from_u16(code).unwrap().to_string()
}

impl HttpStatus {
    #[verifier::type_invariant]
    spec fn three_digits(self) -> bool {
        100 <= self.code <= 999
    }

    /// The status with the given number; none unless the number has three digits.
    pub fn from_u16(code: u16) -> (status: Option<Self>)
        ensures
            status is Some <==> 100 <= code <= 999,
            status matches Some(s) ==> s@ == code,
    {
        if 100 <= code && code <= 999 {
            Some(HttpStatus { code })
        } else {
            None
        }
    }

    /// The number of this status.
    pub fn as_u16(&self) -> (code: u16)
        ensures
            code == self@,
            100 <= code <= 999,
    {
        proof {
            use_type_invariant(self);
        }
        self.code
    }

    /// Whether this is a status of success.
    pub fn is_success(&self) -> (yes: bool)
        ensures
            yes == is_success_code(self@),
    {
        200 <= self.code && self.code < 300
    }

    /// Whether this status blames the request.
    pub fn is_client_error(&self) -> (yes: bool)
        ensures
            yes == is_client_error_code(self@),
    {
        400 <= self.code && self.code < 500
    }

    /// Whether this status blames the server.
    pub fn is_server_error(&self) -> (yes: bool)
        ensures
            yes == is_server_error_code(self@),
    {
        500 <= self.code && self.code < 600
    }

    /// The code and its reason phrase.
    pub fn line(&self) -> (line: String)
        ensures
            line@ == status_line(self@),
    {
        show_status(self.as_u16())
    }
}

/// The class of a status is its first digit.
pub proof fn first_digits_tell_classes(code: u16)
    ensures
        is_success_code(code) <==> code / 100 == 2,
        is_client_error_code(code) <==> code / 100 == 4,
        is_server_error_code(code) <==> code / 100 == 5,
{
}

/// A status is shown by its three digits, a space and its reason phrase.
pub proof fn status_lines_start_with_the_code(code: u16)
    requires
        100 <= code <= 999,
    ensures
        numeral_value(status_line(code).take(3)) == code,
        status_line(code)[3] == ' ',
        status_line(code).skip(4) == reason_phrase(code),
{
    let n = code as nat;
    reveal_strlit(" ");
    numerals_read_back(n);
    assert(decimal(n).len() == decimal(n / 10).len() + 1);
    assert(decimal(n / 10).len() == decimal(n / 10 / 10).len() + 1);
    assert(decimal(n / 10 / 10).len() == 1);
    assert(status_line(code).take(3) =~= decimal(n));
    assert(status_line(code).skip(4) =~= reason_phrase(code));
}

} // verus!
