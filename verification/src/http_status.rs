//! The status under which the provider answered a call.

use vstd::prelude::*;

verus! {

/// The line that `reqwest::StatusCode` prints for a status code: the code, a space, and
/// the reason phrase that the code is known by.
pub uninterp spec fn status_line(code: u16) -> Seq<char>;

/// Lowest code that is a status.
pub const MIN_STATUS: u16 = 100;

/// Highest code that is a status.
pub const MAX_STATUS: u16 = 999;

/// A status code: a number of three digits.
#[derive(Debug, PartialEq, Eq, Clone, Copy)]
pub struct HttpStatus {
    code: u16,
}

impl View for HttpStatus {
    type V = u16;

    closed spec fn view(&self) -> u16 {
        self.code
    }
}

/// `Display` of the `reqwest::StatusCode` made from `code`, which exists for every code
/// of three digits.
#[verifier::external_body]
fn render_status(code: u16) -> (text: String)
    requires
        MIN_STATUS <= code <= MAX_STATUS,
    ensures
        text@ == status_line(code),
{
    match reqwest::StatusCode::from_u16(code) {
        Ok(status) => status.to_string(),
        Err(_) => String::new(),
    }
}

impl HttpStatus {
    #[verifier::type_invariant]
    spec fn three_digits(self) -> bool {
        MIN_STATUS <= self.code <= MAX_STATUS
    }

    /// Whether a status with this code says that the call succeeded.
    pub open spec fn code_is_success(code: u16) -> bool {
        200 <= code <= 299
    }

    /// The status with the given code; none where the code has not three digits.
    pub fn new(code: u16) -> (status: Option<HttpStatus>)
        ensures
            status is Some <==> MIN_STATUS <= code <= MAX_STATUS,
            status matches Some(s) ==> s@ == code,
    {
        if MIN_STATUS <= code && code <= MAX_STATUS {
            Some(HttpStatus { code })
        } else {
            None
        }
    }

    /// The code of this status.
    pub fn as_u16(&self) -> (code: u16)
        ensures
            code == self@,
            MIN_STATUS <= code <= MAX_STATUS,
    {
        proof {
            use_type_invariant(self);
        }
        self.code
    }

    /// Whether the call succeeded.
    pub fn is_success(&self) -> (success: bool)
        ensures
            success == Self::code_is_success(self@),
    {
        200 <= self.code && self.code <= 299
    }

    /// The status as a line of text: its code and reason phrase.
    pub fn to_string(&self) -> (text: String)
        ensures
            text@ == status_line(self@),
    {
        proof {
            use_type_invariant(self);
        }
        render_status(self.code)
    }
}

} // verus!
