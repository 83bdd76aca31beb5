//! HTTP status codes of the server's replies.

use crate::number::{decimal, digit, digits, law_decimal_injective};
use crate::text::{law_what_stands_is_found, starts_with};
use vstd::prelude::*;

verus! {

/// A status code: a number from 100 to 999.
#[derive(Debug, Clone, Copy)]
pub struct HttpStatus {
    code: u16,
}

impl View for HttpStatus {
    type V = u16;

    closed spec fn view(&self) -> u16 {
        self.code
    }
}

/// The reply says that the request was carried out.
pub open spec fn means_success(code: u16) -> bool {
    200 <= code < 300
}

/// The reply says that the request conflicts with the state of the server.
pub open spec fn means_conflict(code: u16) -> bool {
    code == 409
}

/// The phrase that `StatusCode` of the `reqwest` crate writes behind the number of a code.
pub uninterp spec fn reason_phrase(code: u16) -> Seq<char>;

/// A status as people read it: its number and its reason phrase.
pub open spec fn status_text(code: u16) -> Seq<char> {
    decimal(code as int) + " "@ + reason_phrase(code)
}

/// `Display` of `reqwest::StatusCode`, for the code that `StatusCode::from_u16` makes of the
/// number: the number, a space and a phrase. Which phrase that is, is left to the name
/// `reason_phrase`.
#[verifier::external_body]
fn display_status(code: u16) -> (text: String)
    requires
        100 <= code <= 999,
    ensures
        text@ == decimal(code as int) + " "@ + reason_phrase(code),
{
    reqwest::StatusCode::from_u16(code).unwrap().to_string()
}

impl HttpStatus {
    #[verifier::type_invariant]
    spec fn in_range(self) -> bool {
        100 <= self.code <= 999
    }

    /// The status with the given number, if there is one.
    pub fn from_u16(code: u16) -> (status: Option<HttpStatus>)
        ensures
            match status {
                Some(s) => 100 <= code <= 999 && s@ == code,
                None => !(100 <= code <= 999),
            },
    {
        if 100 <= code && code <= 999 {
            Some(HttpStatus { code })
        } else {
            None
        }
    }

    /// Whether the request was carried out.
    pub fn is_success(&self) -> (success: bool)
        ensures
            success == means_success(self@),
    {
        200 <= self.code && self.code < 300
    }

    /// Whether the request conflicts with the state of the server.
    pub fn is_conflict(&self) -> (conflict: bool)
        ensures
            conflict == means_conflict(self@),
    {
        self.code == 409
    }

    /// The status as people read it: its number and its reason phrase.
    pub fn text(&self) -> (text: String)
        ensures
            text@ == status_text(self@),
    {
        proof {
            use_type_invariant(self);
        }
        display_status(self.code)
    }
}

/// Success is told by the first of the three digits of a code, a conflict by all of them.
pub proof fn law_first_digit_tells_success(code: u16)
    requires
        100 <= code <= 999,
    ensures
        means_success(code) <==> code / 100 == 2,
        means_success(code) <==> decimal(code as int)[0] == '2',
        means_conflict(code) <==> decimal(code as int) == seq!['4', '0', '9'],
{
    let text = decimal(code as int);
    reveal_with_fuel(digits, 4);
    assert(text =~= seq![
        digit((code / 100) as int),
        digit((code / 10 % 10) as int),
        digit((code % 10) as int),
    ]);
    assert(decimal(409) =~= seq!['4', '0', '9']);
    law_decimal_injective(code as int, 409);
}

/// The text of a status is its code, a space and more.
pub proof fn law_status_begins_with_its_code(code: u16)
    ensures
        starts_with(status_text(code), decimal(code as int) + seq![' ']),
{
    reveal_strlit(" ");
    let front = decimal(code as int) + seq![' '];
    assert(status_text(code) =~= front + reason_phrase(code));
    law_what_stands_is_found(front, front, reason_phrase(code));
}

/// A number is a status exactly when it has three digits, and the status is then judged by it.
pub proof fn law_statuses_are_judged_by_their_number(
    code: u16,
    made: Option<HttpStatus>,
    status: HttpStatus,
    success: bool,
    conflict: bool,
)
    requires
        call_ensures(HttpStatus::from_u16, (code,), made),
        call_ensures(HttpStatus::is_success, (&status,), success),
        call_ensures(HttpStatus::is_conflict, (&status,), conflict),
    ensures
        made is Some <==> 100 <= code < 1000,
        made matches Some(s) ==> s@ == code,
        success <==> status@ / 100 == 2,
        conflict <==> status@ == 409,
{
}

} // verus!
