//! HTTP status codes and header values.
use crate::number::nat_text;
use vstd::prelude::*;

verus! {

/// The status code of a reply: a number from 100 to 999.
#[derive(Debug, Clone, Copy)]
pub struct StatusCode {
    code: u16,
}

/// The reason phrase that `http::StatusCode::canonical_reason` has for a
/// status code, or the text `<unknown status code>` where it has none.
pub uninterp spec fn reason_phrase(code: u16) -> Seq<char>;

/// The text of a status code: the number, a space and the reason phrase.
pub open spec fn status_text(code: u16) -> Seq<char> {
    nat_text(code as nat) + seq![' '] + reason_phrase(code)
}

/// Displays an `http::StatusCode`, which writes the code as a decimal
/// number, a space, and the canonical reason phrase of the code.
#[verifier::external_body]
fn display_status(code: u16) -> (text: String)
    requires
        100 <= code <= 999,
    ensures
        text@ == nat_text(code as nat) + seq![' '] + reason_phrase(code),
{
    http::StatusCode::from_u16(code).map(|status| status.to_string()).unwrap_or_default()
}

impl StatusCode {
    #[verifier::type_invariant]
    spec fn in_range(self) -> bool {
        100 <= self.code <= 999
    }

    /// The number of the status code.
    pub closed spec fn value(self) -> u16 {
        self.code
    }

    /// The status code with the given number; `None` where the number is
    /// not between 100 and 999.
    pub fn new(code: u16) -> (r: Option<StatusCode>)
        ensures
            r is Some <==> 100 <= code <= 999,
            r matches Some(status) ==> status.value() == code,
    {
        if 100 <= code && code <= 999 {
            Some(StatusCode { code })
        } else {
            None
        }
    }

    /// The number of the status code.
    pub fn as_u16(&self) -> (code: u16)
        ensures
            code == self.value(),
            100 <= code <= 999,
    {
        proof {
            use_type_invariant(self);
        }
        self.code
    }

    /// The text of the status code, such as `404 Not Found`.
    pub fn to_text(&self) -> (text: String)
        ensures
            text@ == status_text(self.value()),
    {
        proof {
            use_type_invariant(self);
        }
        display_status(self.code)
    }
}

/// A character that may stand in the value of a header: no control
/// character but the tab.
pub open spec fn is_header_char(c: char) -> bool {
    (c >= ' ' && c != '\x7f') || c == '\t'
}

/// A text that may be the value of a header.
pub open spec fn is_header_value(s: Seq<char>) -> bool {
    forall|i: int| 0 <= i < s.len() ==> is_header_char(#[trigger] s[i])
}

/// Asks `http::HeaderValue::from_str` whether it accepts the text. It
/// accepts a text whose bytes are the tab, or at least 32 and not 127; the
/// bytes of a character beyond ASCII are all above 127.
#[verifier::external_body]
fn header_value_parses(value: &str) -> (ok: bool)
    ensures
        ok == is_header_value(value@),
{
    http::HeaderValue::from_str(value).is_ok()
}

/// Whether a text may be the value of a header.
pub fn check_header_value(value: &str) -> (ok: bool)
    ensures
        ok == is_header_value(value@),
{
    header_value_parses(value)
}

} // verus!
