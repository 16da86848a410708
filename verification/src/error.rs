use vstd::prelude::*;
use vstd::string::StringExecFns;

verus! {

/// The failure of an HTTP exchange reported by the `reqwest` client.
#[verifier::external_type_specification]
#[verifier::external_body]
pub struct ExReqwestError(reqwest::Error);

/// Errors returned by the Synapse SDK.
#[derive(Debug)]
pub enum SynapseError {
    /// A structured API error returned by the server (non-2xx response).
    ///
    /// 5xx responses are transient (retryable). 4xx responses are permanent
    /// caller mistakes and are never retried.
    Api { status: u16, message: String },
    /// The requested resource was not found (HTTP 404).
    NotFound(String),
    /// A pagination cursor was rejected as invalid or expired (HTTP 400).
    InvalidCursor(String),
    /// The response body could not be decoded as the expected JSON type.
    Decode(String),
    /// Raw HTTP error status, used by the retry layer; not produced by
    /// resource methods.
    Http { status: u16, body: String },
    /// A network-level failure occurred before a response was received.
    Network(reqwest::Error),
}

/// The decimal text of one digit.
pub open spec fn digit_text(d: nat) -> Seq<char> {
    if d == 0 {
        "0"@
    } else if d == 1 {
        "1"@
    } else if d == 2 {
        "2"@
    } else if d == 3 {
        "3"@
    } else if d == 4 {
        "4"@
    } else if d == 5 {
        "5"@
    } else if d == 6 {
        "6"@
    } else if d == 7 {
        "7"@
    } else if d == 8 {
        "8"@
    } else {
        "9"@
    }
}

/// The decimal text of a number, without sign or leading zeros.
pub open spec fn decimal(n: nat) -> Seq<char>
    decreases n,
{
    if n < 10 {
        digit_text(n)
    } else {
        decimal(n / 10) + digit_text(n % 10)
    }
}

fn digit(d: u16) -> (text: &'static str)
    requires
        d < 10,
    ensures
        text@ == digit_text(d as nat),
{
    if d == 0 {
        "0"
    } else if d == 1 {
        "1"
    } else if d == 2 {
        "2"
    } else if d == 3 {
        "3"
    } else if d == 4 {
        "4"
    } else if d == 5 {
        "5"
    } else if d == 6 {
        "6"
    } else if d == 7 {
        "7"
    } else if d == 8 {
        "8"
    } else {
        "9"
    }
}

/// The decimal text of a status code.
pub fn status_text(n: u16) -> (text: String)
    ensures
        text@ == decimal(n as nat),
        decimal_value(text@) == n,
    decreases n,
{
    proof {
        lemma_decimal_reads_back(n as nat);
    }
    if n < 10 {
        String::from_str(digit(n))
    } else {
        status_text(n / 10).concat(digit(n % 10))
    }
}

/// The text that `reqwest::Error`'s `Display` writes for an error: the kind
/// of failure and, where the error has one, the URL. It depends on the error
/// value alone.
pub uninterp spec fn network_text(e: reqwest::Error) -> Seq<char>;

/// `reqwest::Error`'s `Display` text, through `to_string`; the text is named,
/// not spelled out.
#[verifier::external_body]
fn network_error_text(e: &reqwest::Error) -> (text: String)
    ensures
        text@ == network_text(*e),
{
    e.to_string()
}

/// The message of an error, as the SDK displays it.
pub open spec fn message_text(e: SynapseError) -> Seq<char> {
    match e {
        SynapseError::Api { status, message } => "API error "@ + decimal(status as nat) + ": "@
            + message@,
        SynapseError::NotFound(m) => "not found: "@ + m@,
        SynapseError::InvalidCursor(m) => "invalid cursor: "@ + m@,
        SynapseError::Decode(m) => "decode error: "@ + m@,
        SynapseError::Http { status, body } => "HTTP "@ + decimal(status as nat) + ": "@ + body@,
        SynapseError::Network(e) => "network error: "@ + network_text(e),
    }
}

impl SynapseError {
    /// The error's message: `API error {status}: {message}`, `not found: {0}`,
    /// `invalid cursor: {0}`, `decode error: {0}`, `HTTP {status}: {body}` or
    /// `network error: {0}`.
    pub fn message(&self) -> (text: String)
        ensures
            text@ == message_text(*self),
    {
        match self {
            SynapseError::Api { status, message } => String::from_str("API error ").concat(
                status_text(*status).as_str(),
            ).concat(": ").concat(message.as_str()),
            SynapseError::NotFound(m) => String::from_str("not found: ").concat(m.as_str()),
            SynapseError::InvalidCursor(m) => String::from_str("invalid cursor: ").concat(
                m.as_str(),
            ),
            SynapseError::Decode(m) => String::from_str("decode error: ").concat(m.as_str()),
            SynapseError::Http { status, body } => String::from_str("HTTP ").concat(
                status_text(*status).as_str(),
            ).concat(": ").concat(body.as_str()),
            SynapseError::Network(e) => String::from_str("network error: ").concat(
                network_error_text(e).as_str(),
            ),
        }
    }

    /// Whether a retry of the request that failed with this error may succeed:
    /// network failures and 5xx statuses, and nothing else.
    pub open spec fn transient(&self) -> bool {
        match self {
            SynapseError::Network(_) => true,
            SynapseError::Http { status, .. } => *status >= 500,
            SynapseError::Api { status, .. } => *status >= 500,
            _ => false,
        }
    }

    /// Returns `true` if this error may resolve on a subsequent attempt.
    ///
    /// Network errors and 5xx HTTP responses are transient. 4xx responses are
    /// permanent (they represent a caller mistake) and must not be retried.
    pub fn is_transient(&self) -> (transient: bool)
        ensures
            transient == self.transient(),
    {
        match self {
            SynapseError::Network(_) => true,
            SynapseError::Http { status, .. } => *status >= 500,
            SynapseError::Api { status, .. } => *status >= 500,
            _ => false,
        }
    }
}

impl From<reqwest::Error> for SynapseError {
    /// A network-level failure.
    fn from(e: reqwest::Error) -> (err: Self)
        ensures
            err == SynapseError::Network(e),
    {
        SynapseError::Network(e)
    }
}

impl vstd::std_specs::convert::FromSpecImpl<reqwest::Error> for SynapseError {
    open spec fn obeys_from_spec() -> bool {
        true
    }

    open spec fn from_spec(e: reqwest::Error) -> SynapseError {
        SynapseError::Network(e)
    }
}

/// A response with a 4xx status is a caller mistake: whether it comes back as
/// an API error or as a raw HTTP error, it is never transient.
pub proof fn lemma_client_errors_are_permanent(status: u16, text: String)
    requires
        400 <= status < 500,
    ensures
        !(SynapseError::Api { status, message: text }).transient(),
        !(SynapseError::Http { status, body: text }).transient(),
{
}

/// A response with a 5xx status, as an API error or as a raw HTTP error, is
/// transient: the request may succeed when it is tried again.
pub proof fn lemma_server_errors_are_transient(status: u16, text: String)
    requires
        500 <= status,
    ensures
        (SynapseError::Api { status, message: text }).transient(),
        (SynapseError::Http { status, body: text }).transient(),
{
}

/// Errors that name a missing resource, a rejected cursor or an undecodable
/// body are never transient.
pub proof fn lemma_caller_side_errors_are_permanent(text: String)
    ensures
        !(SynapseError::NotFound(text)).transient(),
        !(SynapseError::InvalidCursor(text)).transient(),
        !(SynapseError::Decode(text)).transient(),
{
}

} // verus!

verus! {

/// The value of a decimal digit character.
pub open spec fn digit_value(c: char) -> int {
    c as int - '0' as int
}

/// The number that a string of decimal digits stands for.
pub open spec fn decimal_value(s: Seq<char>) -> int
    decreases s.len(),
{
    if s.len() == 0 {
        0
    } else {
        decimal_value(s.drop_last()) * 10 + digit_value(s.last())
    }
}

proof fn lemma_digit_text(d: nat)
    requires
        d < 10,
    ensures
        digit_text(d).len() == 1,
        digit_value(digit_text(d)[0]) == d,
{
    reveal_strlit("0");
    reveal_strlit("1");
    reveal_strlit("2");
    reveal_strlit("3");
    reveal_strlit("4");
    reveal_strlit("5");
    reveal_strlit("6");
    reveal_strlit("7");
    reveal_strlit("8");
    reveal_strlit("9");
}

/// The decimal text of a number is made of digits only, starts with a
/// nonzero digit unless the number is 0, and reads back as the number.
pub proof fn lemma_decimal_reads_back(n: nat)
    ensures
        decimal(n).len() >= 1,
        decimal_value(decimal(n)) == n,
        forall|i: int| 0 <= i < decimal(n).len() ==> 0 <= #[trigger] digit_value(decimal(n)[i]) <= 9,
        n > 0 ==> digit_value(decimal(n)[0]) != 0,
    decreases n,
{
    if n < 10 {
        lemma_digit_text(n);
        let s = decimal(n);
        assert(s.drop_last() =~= Seq::<char>::empty());
        assert(decimal_value(Seq::<char>::empty()) == 0);
        assert(s.last() == s[0]);
        assert(decimal_value(s) == decimal_value(s.drop_last()) * 10 + digit_value(s.last()));
    } else {
        lemma_decimal_reads_back(n / 10);
        lemma_digit_text(n % 10);
        let s = decimal(n);
        let hi = decimal(n / 10);
        let lo = digit_text(n % 10);
        assert(s == hi + lo);
        assert(s.drop_last() =~= hi);
        assert(s.last() == lo[0]);
        assert(decimal_value(s) == decimal_value(hi) * 10 + digit_value(lo[0]));
        assert(n == (n / 10) * 10 + n % 10);
        assert forall|i: int| 0 <= i < s.len() implies 0 <= #[trigger] digit_value(s[i]) <= 9 by {
            if i < hi.len() {
                assert(s[i] == hi[i]);
            } else {
                assert(s[i] == lo[0]);
            }
        }
        assert(s[0] == hi[0]);
    }
}

/// An error's message starts with the label of its kind and ends with the
/// text it carries; an API or HTTP error's message carries the status as
/// decimal digits that read back as the status.
pub proof fn lemma_message_carries_its_parts(status: u16, text: String)
    ensures
        message_text(SynapseError::Api { status, message: text }) == "API error "@ + decimal(
            status as nat,
        ) + ": "@ + text@,
        message_text(SynapseError::Http { status, body: text }) == "HTTP "@ + decimal(
            status as nat,
        ) + ": "@ + text@,
        decimal_value(decimal(status as nat)) == status,
        message_text(SynapseError::NotFound(text)) == "not found: "@ + text@,
        message_text(SynapseError::InvalidCursor(text)) == "invalid cursor: "@ + text@,
        message_text(SynapseError::Decode(text)) == "decode error: "@ + text@,
{
    lemma_decimal_reads_back(status as nat);
}

/// A network error's message is its label followed by the `reqwest` error's
/// own text, and a network error is always transient.
pub proof fn lemma_network_errors(e: reqwest::Error)
    ensures
        message_text(SynapseError::Network(e)) == "network error: "@ + network_text(e),
        (SynapseError::Network(e)).transient(),
{
}

} // verus!
