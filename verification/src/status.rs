//! HTTP status codes: which ones mean success, and how one is written out.

use vstd::prelude::*;

verus! {

/// The standard reason phrase of a status code, where the code has one.
pub uninterp spec fn canonical_reason_of(code: u16) -> Option<Seq<char>>;

/// The character that writes the decimal digit `d`.
pub open spec fn digit_char(d: int) -> char
    recommends
        0 <= d <= 9,
{
    seq!['0', '1', '2', '3', '4', '5', '6', '7', '8', '9'][d]
}

/// The digit that the character `c` writes.
pub open spec fn digit_value(c: char) -> int {
    c as int - '0' as int
}

/// The three decimal digits of a status code.
pub open spec fn code_digits(code: u16) -> Seq<char>
    recommends
        valid_code(code),
{
    seq![
        digit_char(code as int / 100),
        digit_char(code as int / 10 % 10),
        digit_char(code as int % 10),
    ]
}

/// A status code is a number of three digits.
pub open spec fn valid_code(code: u16) -> bool {
    100 <= code <= 999
}

/// The codes that report success: 200 to 299.
pub open spec fn success_code(code: u16) -> bool {
    200 <= code < 300
}

/// The reason phrase of `code`, or `fallback` where it has none.
pub open spec fn reason_or(code: u16, fallback: Seq<char>) -> Seq<char> {
    match canonical_reason_of(code) {
        Some(reason) => reason,
        None => fallback,
    }
}

/// A status written out: its digits, a space, and its reason phrase.
pub open spec fn status_line_text(code: u16) -> Seq<char> {
    code_digits(code) + " "@ + reason_or(code, "<unknown status code>"@)
}

/// The digits of a status code, read as a number, give the code back.
pub proof fn lemma_code_digits_spell_code(code: u16)
    requires
        valid_code(code),
    ensures
        code_digits(code).len() == 3,
        forall|i: int| 0 <= i < 3 ==> 0 <= digit_value(#[trigger] code_digits(code)[i]) <= 9,
        digit_value(code_digits(code)[0]) * 100 + digit_value(code_digits(code)[1]) * 10
            + digit_value(code_digits(code)[2]) == code,
{
    assert forall|d: int| 0 <= d <= 9 implies digit_value(#[trigger] digit_char(d)) == d by {
        let digits = seq!['0', '1', '2', '3', '4', '5', '6', '7', '8', '9'];
        assert(digits[d] == digit_char(d));
    }
    let hundreds = code as int / 100;
    let tens = code as int / 10 % 10;
    let ones = code as int % 10;
    assert(code_digits(code)[0] == digit_char(hundreds));
    assert(code_digits(code)[1] == digit_char(tens));
    assert(code_digits(code)[2] == digit_char(ones));
}

/// A reason phrase as text, where there is one.
pub open spec fn phrase_view(reason: Option<&str>) -> Option<Seq<char>> {
    match reason {
        Some(phrase) => Some(phrase@),
        None => None,
    }
}

/// `reqwest::StatusCode::canonical_reason`: the phrase that the table of
/// registered status codes holds for `code`, or nothing for a code that is not
/// in the table. The table itself is not restated here; its entry for a code
/// goes by the name `canonical_reason_of`.
#[verifier::external_body]
fn canonical_reason_phrase(code: u16) -> (reason: Option<&'static str>)
    requires
        valid_code(code),
    ensures
        phrase_view(reason) == canonical_reason_of(code),
{
    match reqwest::StatusCode::from_u16(code) {
        Ok(status) => status.canonical_reason(),
        Err(_) => None,
    }
}

/// `reqwest::StatusCode`'s `Display`, through `to_string`: the three digits
/// of the code, one space, then the canonical reason phrase, or the words
/// `<unknown status code>` for a code without one.
#[verifier::external_body]
fn display_status(code: u16) -> (line: String)
    requires
        valid_code(code),
    ensures
        line@ == status_line_text(code),
{
    match reqwest::StatusCode::from_u16(code) {
        Ok(status) => status.to_string(),
        Err(_) => String::new(),
    }
}

/// The status code of an HTTP response.
#[derive(Clone, Copy, Debug, PartialEq, Eq, Structural)]
pub struct HttpStatus {
    code: u16,
}

impl View for HttpStatus {
    type V = u16;

    closed spec fn view(&self) -> u16 {
        self.code
    }
}

impl HttpStatus {
    /// Every status holds a number of three digits.
    #[verifier::type_invariant]
    pub open spec fn well_formed(self) -> bool {
        valid_code(self@)
    }

    /// The status with the number `code`, if `code` has three digits.
    pub fn from_u16(code: u16) -> (status: Option<HttpStatus>)
        ensures
            match status {
                Some(s) => valid_code(code) && s@ == code,
                None => !valid_code(code),
            },
    {
        if 100 <= code && code <= 999 {
            Some(HttpStatus { code })
        } else {
            None
        }
    }

    /// The status's number.
    pub fn as_u16(&self) -> (code: u16)
        ensures
            code == self@,
            valid_code(code),
    {
        proof {
            use_type_invariant(self);
        }
        self.code
    }

    /// Whether the status reports success.
    pub fn is_success(&self) -> (success: bool)
        ensures
            success == success_code(self@),
    {
        200 <= self.code && self.code < 300
    }

    /// The status's standard reason phrase, if it has one.
    pub fn canonical_reason(&self) -> (reason: Option<&'static str>)
        ensures
            phrase_view(reason) == canonical_reason_of(self@),
    {
        proof {
            use_type_invariant(self);
        }
        canonical_reason_phrase(self.code)
    }

    /// The status written out, as `404 Not Found`.
    pub fn to_text(&self) -> (line: String)
        ensures
            line@ == status_line_text(self@),
    {
        proof {
            use_type_invariant(self);
        }
        display_status(self.code)
    }
}

} // verus!
