use vstd::prelude::*;
use vstd::string::StringExecFns;

use crate::error::SynapseError;

verus! {

/// The HTTP client of the `reqwest` crate, carried by the admin client.
#[verifier::external_type_specification]
#[verifier::external_body]
pub struct ExReqwestClient(reqwest::Client);

/// HTTP client for admin-only Synapse API endpoints.
///
/// Sends `Authorization: Bearer <admin_key>` on every request, mirroring the
/// server's `admin_auth` middleware. Public resource methods are not
/// available on this type, preventing accidental mix-up of admin and
/// public-API scopes.
pub struct AdminClient {
    pub http: reqwest::Client,
    pub base_url: String,
    pub admin_key: String,
    pub max_attempts: u32,
    pub base_delay_ms: u64,
}

/// `reqwest::Client::clone`: a second handle on the same client (the client
/// keeps its connection pool behind a shared pointer). Nothing is claimed of
/// the handle, which the library only carries.
pub assume_specification[ <reqwest::Client as Clone>::clone ](client: &reqwest::Client) -> reqwest::Client;

impl Clone for AdminClient {
    /// A client with the same settings that shares the HTTP client.
    fn clone(&self) -> (c: Self)
        ensures
            c.base_url == self.base_url,
            c.admin_key == self.admin_key,
            c.max_attempts == self.max_attempts,
            c.base_delay_ms == self.base_delay_ms,
    {
        AdminClient {
            http: self.http.clone(),
            base_url: self.base_url.clone(),
            admin_key: self.admin_key.clone(),
            max_attempts: self.max_attempts,
            base_delay_ms: self.base_delay_ms,
        }
    }
}

/// What an admin GET sends: the full URL, the `Authorization` header value
/// and the query pairs (empty for a plain GET).
pub struct AdminRequest {
    pub url: String,
    pub authorization: String,
    pub query: Vec<(String, String)>,
}

/// The header value that authenticates an admin request.
pub open spec fn bearer(key: Seq<char>) -> Seq<char> {
    "Bearer "@ + key
}

/// The status codes that the admin client reports as API errors.
pub open spec fn is_error_status(status: u16) -> bool {
    status >= 400
}

/// The query pairs `owned` hold the same keys and values, in the same order,
/// as the borrowed pairs `query`.
pub open spec fn same_pairs(owned: Seq<(String, String)>, query: Seq<(&str, &str)>) -> bool {
    &&& owned.len() == query.len()
    &&& forall|i: int|
        0 <= i < query.len() ==> (#[trigger] owned[i]).0@ == query[i].0@ && owned[i].1@
            == query[i].1@
}

impl AdminClient {
    pub fn new(
        http: reqwest::Client,
        base_url: String,
        admin_key: String,
        max_attempts: u32,
        base_delay_ms: u64,
    ) -> (client: Self)
        ensures
            client.http == http,
            client.base_url == base_url,
            client.admin_key == admin_key,
            client.max_attempts == max_attempts,
            client.base_delay_ms == base_delay_ms,
    {
        AdminClient { http, base_url, admin_key, max_attempts, base_delay_ms }
    }

    /// The URL of an admin endpoint: the base URL followed by the path.
    pub fn url_for(&self, path: &str) -> (url: String)
        ensures
            url@ == self.base_url@ + path@,
    {
        self.base_url.clone().concat(path)
    }

    /// The `Authorization` header value: `Bearer ` followed by the admin key.
    pub fn authorization(&self) -> (value: String)
        ensures
            value@ == bearer(self.admin_key@),
            value@ == "Bearer "@ + self.admin_key@,
    {
        String::from_str("Bearer ").concat(self.admin_key.as_str())
    }

    /// The request that `get(path)` sends on each attempt.
    pub fn get_request(&self, path: &str) -> (req: AdminRequest)
        ensures
            req.url@ == self.base_url@ + path@,
            req.authorization@ == bearer(self.admin_key@),
            req.authorization@ == "Bearer "@ + self.admin_key@,
            req.query@.len() == 0,
    {
        AdminRequest { url: self.url_for(path), authorization: self.authorization(), query: Vec::new() }
    }

    /// The request that `get_query(path, query)` sends on each attempt.
    pub fn get_query_request(&self, path: &str, query: &[(&str, &str)]) -> (req: AdminRequest)
        ensures
            req.url@ == self.base_url@ + path@,
            req.authorization@ == bearer(self.admin_key@),
            req.authorization@ == "Bearer "@ + self.admin_key@,
            same_pairs(req.query@, query@),
            req.query@.len() == query@.len(),
    {
        AdminRequest {
            url: self.url_for(path),
            authorization: self.authorization(),
            query: owned_query(query),
        }
    }
}

/// Copies borrowed query pairs into owned strings, keeping their order.
pub fn owned_query(query: &[(&str, &str)]) -> (owned: Vec<(String, String)>)
    ensures
        same_pairs(owned@, query@),
{
    let mut owned: Vec<(String, String)> = Vec::new();
    let n = query.len();
    for i in 0..n
        invariant
            n == query@.len(),
            owned@.len() == i,
            forall|j: int|
                0 <= j < i ==> (#[trigger] owned@[j]).0@ == query@[j].0@ && owned@[j].1@
                    == query@[j].1@,
    {
        let (k, v) = query[i];
        owned.push((String::from_str(k), String::from_str(v)));
    }
    owned
}

/// Whether an admin response with this status is an error: 400 and above.
pub fn is_error_response(status: u16) -> (error: bool)
    ensures
        error == is_error_status(status),
        error == (status >= 400),
{
    status >= 400
}

/// The error body of an admin response, as far as the client reads it: an
/// `error` and a `message` field.
pub struct ErrorBody {
    pub error: Option<String>,
    pub message: Option<String>,
}

/// The message that an error body carries: its `error` field, else its
/// `message` field; `None` when the body did not parse as an error body or
/// has neither field.
pub open spec fn body_message(body: Option<ErrorBody>) -> Option<String> {
    match body {
        Some(ErrorBody { error: Some(e), .. }) => Some(e),
        Some(ErrorBody { error: None, message: Some(m) }) => Some(m),
        _ => None,
    }
}

pub fn error_message(body: Option<ErrorBody>) -> (message: Option<String>)
    ensures
        message == body_message(body),
{
    match body {
        Some(ErrorBody { error: Some(e), .. }) => Some(e),
        Some(ErrorBody { error: None, message: Some(m) }) => Some(m),
        _ => None,
    }
}

/// The API error for an error response: its status, and as message the one
/// parsed from the body where there is one, else the raw body.
pub fn api_error(status: u16, body: String, parsed_message: Option<String>) -> (err: SynapseError)
    ensures
        err == (SynapseError::Api {
            status,
            message: match parsed_message {
                Some(m) => m,
                None => body,
            },
        }),
{
    let message = match parsed_message {
        Some(m) => m,
        None => body,
    };
    SynapseError::Api { status, message }
}

/// The error that an admin response with the given status stands for, if any.
///
/// A status of 400 or above is an API error whose message is the one parsed
/// from the body where there is one, else the raw body; any other status is
/// no error, and the body is then decoded as the expected JSON type.
pub fn error_for_status(status: u16, body: String, parsed_message: Option<String>) -> (err:
    Option<SynapseError>)
    ensures
        status >= 400 <==> err is Some,
        is_error_status(status) <==> err is Some,
        is_error_status(status) ==> err == Some(
            SynapseError::Api {
                status,
                message: match parsed_message {
                    Some(m) => m,
                    None => body,
                },
            },
        ),
{
    if is_error_response(status) {
        Some(api_error(status, body, parsed_message))
    } else {
        None
    }
}

} // verus!

verus! {

/// What to do after an attempt of an admin request failed.
#[derive(Debug)]
pub enum RetryStep {
    /// Wait `delay_ms` milliseconds, then send the same request again.
    Retry { delay_ms: u64 },
    /// Give up and return the error.
    GiveUp,
}

/// The exponential backoff: the base delay before the second attempt, doubled
/// before each attempt after it.
pub open spec fn backoff(base: nat, attempt: nat) -> nat
    decreases attempt,
{
    if attempt <= 1 {
        base
    } else {
        2 * backoff(base, (attempt - 1) as nat)
    }
}

/// The delay after the `attempt`-th failed attempt, in milliseconds, capped at
/// `u64::MAX`.
pub open spec fn backoff_delay(base_delay_ms: u64, attempt: u32) -> u64 {
    if backoff(base_delay_ms as nat, attempt as nat) > u64::MAX {
        u64::MAX
    } else {
        backoff(base_delay_ms as nat, attempt as nat) as u64
    }
}

/// The retry rule: a failed attempt is tried again when its error is
/// transient (network failures and 5xx statuses) and fewer than
/// `max_attempts` attempts were made; 4xx statuses and the other errors are
/// returned at once.
pub open spec fn retry_decision(attempt: u32, max_attempts: u32, base_delay_ms: u64, err: SynapseError) -> RetryStep {
    if err.transient() && attempt < max_attempts {
        RetryStep::Retry { delay_ms: backoff_delay(base_delay_ms, attempt) }
    } else {
        RetryStep::GiveUp
    }
}

pub fn backoff_delay_ms(base_delay_ms: u64, attempt: u32) -> (delay: u64)
    ensures
        delay == backoff_delay(base_delay_ms, attempt),
{
    let mut delay = base_delay_ms;
    let mut i: u32 = 1;
    while i < attempt
        invariant
            1 <= i,
            i <= attempt || i == 1,
            delay == backoff_delay(base_delay_ms, i),
        decreases attempt - i,
    {
        assert(backoff(base_delay_ms as nat, (i + 1) as nat) == 2 * backoff(
            base_delay_ms as nat,
            i as nat,
        ));
        if delay > u64::MAX / 2 {
            delay = u64::MAX;
        } else {
            delay = delay * 2;
        }
        i = i + 1;
    }
    assert(backoff(base_delay_ms as nat, attempt as nat) == backoff(base_delay_ms as nat, i as nat));
    delay
}

/// Decides, after the `attempt`-th attempt (counting from 1) failed with
/// `err`, whether to send the request again and after which delay.
pub fn retry_step(attempt: u32, max_attempts: u32, base_delay_ms: u64, err: &SynapseError) -> (step: RetryStep)
    ensures
        step == retry_decision(attempt, max_attempts, base_delay_ms, *err),
        step is Retry <==> (err.transient() && attempt < max_attempts),
{
    if err.is_transient() && attempt < max_attempts {
        RetryStep::Retry { delay_ms: backoff_delay_ms(base_delay_ms, attempt) }
    } else {
        RetryStep::GiveUp
    }
}

/// The attempts of one admin request: which attempt is under way, and the
/// client's retry settings.
pub struct RetryState {
    pub attempt: u32,
    pub max_attempts: u32,
    pub base_delay_ms: u64,
}

impl RetryState {
    /// Attempts are counted from 1, and one is under way at most
    /// `max_attempts` (at least one attempt is always made).
    pub open spec fn wf(self) -> bool {
        1 <= self.attempt && (self.attempt <= self.max_attempts || self.attempt == 1)
    }

    /// The state when the first attempt of a request is sent.
    pub fn new(max_attempts: u32, base_delay_ms: u64) -> (s: Self)
        ensures
            s.wf(),
            s.attempt == 1,
            s.max_attempts == max_attempts,
            s.base_delay_ms == base_delay_ms,
    {
        RetryState { attempt: 1, max_attempts, base_delay_ms }
    }

    /// The attempt under way failed with `err`: decides whether to retry, and
    /// on a retry counts the next attempt.
    pub fn after_failure(&mut self, err: &SynapseError) -> (step: RetryStep)
        requires
            old(self).wf(),
        ensures
            final(self).wf(),
            step == retry_decision(
                old(self).attempt,
                old(self).max_attempts,
                old(self).base_delay_ms,
                *err,
            ),
            final(self).max_attempts == old(self).max_attempts,
            final(self).base_delay_ms == old(self).base_delay_ms,
            step is Retry ==> final(self).attempt == old(self).attempt + 1,
            step is GiveUp ==> final(self).attempt == old(self).attempt,
    {
        let step = retry_step(self.attempt, self.max_attempts, self.base_delay_ms, err);
        if let RetryStep::Retry { .. } = step {
            self.attempt = self.attempt + 1;
        }
        step
    }
}

/// A request is sent at most `max_attempts` times (once when `max_attempts`
/// is 0): after any failure the attempt count stays within that bound, and a
/// failure on the last allowed attempt is never retried.
pub proof fn lemma_attempts_are_bounded(s: RetryState, err: SynapseError)
    requires
        s.wf(),
    ensures
        retry_decision(s.attempt, s.max_attempts, s.base_delay_ms, err) is Retry ==> s.attempt + 1
            <= s.max_attempts,
        s.attempt >= s.max_attempts ==> retry_decision(
            s.attempt,
            s.max_attempts,
            s.base_delay_ms,
            err,
        ) is GiveUp,
{
}

/// The `Authorization` value carries the whole admin key, unchanged, after
/// the `Bearer ` scheme: its length is the key's plus seven, it starts with
/// `Bearer ` and what follows is exactly the key; two different keys never
/// give the same value.
pub proof fn lemma_bearer_carries_whole_key(key: Seq<char>, other: Seq<char>)
    ensures
        bearer(key).len() == key.len() + 7,
        bearer(key).subrange(0, 7) == "Bearer "@,
        bearer(key).subrange(7, bearer(key).len() as int) == key,
        bearer(key) == bearer(other) ==> key == other,
{
    reveal_strlit("Bearer ");
    assert(bearer(key).subrange(0, 7) =~= "Bearer "@);
    assert(bearer(key).subrange(7, bearer(key).len() as int) =~= key);
    if bearer(key) == bearer(other) {
        assert(bearer(other).subrange(7, bearer(other).len() as int) =~= other);
    }
}

/// Every status from 400 up, 4xx and 5xx alike, is an API error, and no
/// status below 400 is: the rule depends on nothing but `status >= 400`.
pub proof fn lemma_error_statuses(status: u16)
    ensures
        is_error_status(status) <==> status >= 400,
        400 <= status < 500 ==> is_error_status(status),
        500 <= status ==> is_error_status(status),
        status < 400 ==> !is_error_status(status),
{
}

/// The message of an error body: the `error` field whenever there is one,
/// else the `message` field; nothing when the body did not parse.
pub proof fn lemma_body_message(error: Option<String>, message: Option<String>)
    ensures
        body_message(None) is None,
        error matches Some(e) ==> body_message(Some(ErrorBody { error, message })) == Some(e),
        error is None ==> body_message(Some(ErrorBody { error, message })) == message,
{
}

/// Owned query pairs hold as many pairs as were given, each with the same key
/// and value at the same place.
pub proof fn lemma_same_pairs(owned: Seq<(String, String)>, query: Seq<(&str, &str)>, i: int)
    requires
        same_pairs(owned, query),
        0 <= i < query.len(),
    ensures
        owned.len() == query.len(),
        owned[i].0@ == query[i].0@,
        owned[i].1@ == query[i].1@,
{
}

/// A retry is decided by the error and the attempts left alone: a transient
/// error (network failure or 5xx) before the last attempt is retried after
/// the backoff delay, and anything else is given up at once.
pub proof fn lemma_retry_rule(attempt: u32, max_attempts: u32, base_delay_ms: u64, err: SynapseError)
    ensures
        retry_decision(attempt, max_attempts, base_delay_ms, err) is Retry <==> (err.transient()
            && attempt < max_attempts),
        retry_decision(attempt, max_attempts, base_delay_ms, err) matches RetryStep::Retry { delay_ms }
            ==> delay_ms == backoff_delay(base_delay_ms, attempt),
{
}

/// The backoff before the retry after the `attempt`-th failure is the base
/// delay times `2^(attempt - 1)`, capped at `u64::MAX`.
pub proof fn lemma_backoff_is_exponential(base_delay_ms: u64, attempt: nat)
    requires
        attempt >= 1,
    ensures
        backoff(base_delay_ms as nat, attempt) == base_delay_ms * vstd::arithmetic::power2::pow2(
            (attempt - 1) as nat,
        ),
    decreases attempt,
{
    if attempt == 1 {
        vstd::arithmetic::power2::lemma2_to64();
        assert(backoff(base_delay_ms as nat, attempt) == base_delay_ms);
        assert(base_delay_ms * vstd::arithmetic::power2::pow2(0) == base_delay_ms);
    } else {
        lemma_backoff_is_exponential(base_delay_ms, (attempt - 1) as nat);
        vstd::arithmetic::power2::lemma_pow2_unfold((attempt - 1) as nat);
        let p = vstd::arithmetic::power2::pow2((attempt - 2) as nat);
        let b = base_delay_ms as int;
        assert(vstd::arithmetic::power2::pow2((attempt - 1) as nat) == 2 * p);
        assert(backoff(base_delay_ms as nat, attempt) == 2 * backoff(base_delay_ms as nat, (attempt - 1) as nat));
        assert(backoff(base_delay_ms as nat, (attempt - 1) as nat) == b * p);
        assert(b * (2 * p) == 2 * (b * p)) by (nonlinear_arith);
        assert(backoff(base_delay_ms as nat, attempt) == b * vstd::arithmetic::power2::pow2((attempt - 1) as nat));
    }
}

/// A 4xx response is never retried, whatever attempt it came on.
pub proof fn lemma_client_errors_are_never_retried(
    attempt: u32,
    max_attempts: u32,
    base_delay_ms: u64,
    status: u16,
    text: String,
)
    requires
        400 <= status < 500,
    ensures
        retry_decision(attempt, max_attempts, base_delay_ms, SynapseError::Api { status, message: text }) is GiveUp,
        retry_decision(attempt, max_attempts, base_delay_ms, SynapseError::Http { status, body: text }) is GiveUp,
{
}

/// A 5xx response is retried as long as attempts remain, and never after the
/// last one: a request is sent at most `max_attempts` times (once when
/// `max_attempts` is 0 or 1).
pub proof fn lemma_server_errors_retry_until_attempts_run_out(
    attempt: u32,
    max_attempts: u32,
    base_delay_ms: u64,
    status: u16,
    text: String,
)
    requires
        500 <= status,
    ensures
        retry_decision(attempt, max_attempts, base_delay_ms, SynapseError::Api { status, message: text }) is Retry
            <==> attempt < max_attempts,
        attempt >= max_attempts ==> retry_decision(attempt, max_attempts, base_delay_ms, SynapseError::Http { status, body: text }) is GiveUp,
{
}

/// The delay doubles from one retry to the next until it reaches the cap:
/// the backoff never shrinks.
pub proof fn lemma_backoff_doubles(base_delay_ms: u64, attempt: u32)
    requires
        1 <= attempt < u32::MAX,
    ensures
        backoff_delay(base_delay_ms, (attempt + 1) as u32) == if 2 * backoff_delay(base_delay_ms, attempt) > u64::MAX {
            u64::MAX as int
        } else {
            2 * backoff_delay(base_delay_ms, attempt)
        },
        backoff_delay(base_delay_ms, attempt) <= backoff_delay(base_delay_ms, (attempt + 1) as u32),
{
    assert(backoff(base_delay_ms as nat, (attempt + 1) as nat) == 2 * backoff(base_delay_ms as nat, attempt as nat));
}

/// The first retry waits the base delay.
pub proof fn lemma_first_retry_waits_base_delay(base_delay_ms: u64)
    ensures
        backoff_delay(base_delay_ms, 1) == base_delay_ms,
{
}

} // verus!
