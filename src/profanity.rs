use crate::error::{APILayerError, Error};
use crate::retry::{backoff_cap_ms, RetryPolicy};
use vstd::prelude::*;
use vstd::string::StringExecFns;

verus! {

/// Error body of the moderation service.
#[derive(Debug, Clone)]
pub struct APIResponse {
    pub message: String,
}

/// One flagged term, as the moderation service reports it.
#[derive(Debug, Clone)]
pub struct BadWord {
    pub original: String,
    pub word: String,
    pub deviations: i64,
    pub info: i64,
    pub replaced_len: i64,
}

/// Success body of the moderation service.
#[derive(Debug, Clone)]
pub struct BadWordsResponse {
    pub content: String,
    pub bad_words_total: i64,
    pub bad_words_list: Vec<BadWord>,
    pub censored_content: String,
}

/// A response of the moderation service: its status, its body as text, and
/// that body decoded as each of the two shapes it may have (`None` where it
/// does not decode so).
#[derive(Debug, Clone)]
pub struct UpstreamResponse {
    pub status: u16,
    pub body: String,
    pub success_body: Option<BadWordsResponse>,
    pub error_body: Option<APIResponse>,
}

/// What one attempt at the exchange gave.
#[derive(Debug, Clone)]
pub enum Exchange {
    /// No response came back (connection, timeout, encoding).
    TransportFailure,
    Response(UpstreamResponse),
}

/// What the client does after an attempt.
#[derive(Debug)]
pub enum Step {
    /// Make another attempt after waiting `wait_ms` milliseconds.
    Retry { wait_ms: u64 },
    /// The call is over, with this result.
    Done(Result<String, Error>),
}

/// Where the moderation service lives and the credential it asks for.
#[derive(Debug, Clone)]
pub struct ModerationConfig {
    pub api_layer_url: String,
    pub api_key: String,
}

/// The POST request sent to the moderation service.
#[derive(Debug, Clone)]
pub struct ModerationRequest {
    pub url: String,
    pub header_name: String,
    pub header_value: String,
    pub body: String,
}

pub open spec fn is_success_status(status: u16) -> bool {
    200 <= status <= 299
}

pub open spec fn is_client_error_status(status: u16) -> bool {
    400 <= status <= 499
}

/// Path and query appended to the configured base URL.
pub open spec fn bad_words_path() -> Seq<char> {
    seq!['/', 'b', 'a', 'd', '_', 'w', 'o', 'r', 'd', 's', '?', 'c', 'e', 'n', 's', 'o', 'r', '_',
        'c', 'h', 'a', 'r', 'a', 'c', 't', 'e', 'r', '=', '*']
}

pub open spec fn api_key_header() -> Seq<char> {
    seq!['a', 'p', 'i', 'k', 'e', 'y']
}

/// The message of an error response: the decoded one, or else the body's text.
pub open spec fn error_message(resp: UpstreamResponse) -> String {
    match resp.error_body {
        Some(e) => e.message,
        None => resp.body,
    }
}

/// The result a response stands for: the censored text of a decodable
/// success body, and a decode error where that body does not decode; for
/// another status, a client error (4xx) or a server error (any other) with
/// that status and the decoded message, or the body's text where the error
/// body does not decode.
pub open spec fn classified(resp: UpstreamResponse) -> Result<String, Error> {
    if is_success_status(resp.status) {
        match resp.success_body {
            Some(b) => Ok(b.censored_content),
            None => Err(Error::ResponseDecodeError),
        }
    } else {
        let err = APILayerError { status: resp.status, message: error_message(resp) };
        if is_client_error_status(resp.status) {
            Err(Error::UpstreamClientError(err))
        } else {
            Err(Error::UpstreamServerError(err))
        }
    }
}

/// The step owed after an attempt, when `retries_done` retries came before
/// it: a transport failure is retried while the budget lasts, after a wait
/// within the backoff's bound, and is a transport error after that; a
/// response ends the call.
pub open spec fn step_owed(max_retries: u32, retries_done: u32, e: Exchange, s: Step) -> bool {
    match e {
        Exchange::TransportFailure => if retries_done < max_retries {
            s matches Step::Retry { wait_ms } && wait_ms <= backoff_cap_ms(retries_done as nat)
        } else {
            s == Step::Done(Err(Error::TransportError))
        },
        Exchange::Response(resp) => s == Step::Done(classified(resp)),
    }
}

impl ModerationConfig {
    /// Builds the configuration from the values read from the environment;
    /// fails when either is absent.
    pub fn new(api_layer_url: Option<String>, api_key: Option<String>) -> (r: Result<
        ModerationConfig,
        Error,
    >)
        ensures
            (api_layer_url is None || api_key is None) <==> r == Err::<ModerationConfig, Error>(
                Error::ConfigurationError,
            ),
            (api_layer_url is Some && api_key is Some) ==> r is Ok,
            r matches Ok(c) ==> api_layer_url == Some(c.api_layer_url) && api_key == Some(
                c.api_key,
            ),
    {
        match (api_layer_url, api_key) {
            (Some(api_layer_url), Some(api_key)) => Ok(ModerationConfig { api_layer_url, api_key }),
            _ => Err(Error::ConfigurationError),
        }
    }
}

/// The request that asks the service to censor `content` with `*`.
pub fn build_request(config: &ModerationConfig, content: String) -> (r: ModerationRequest)
    ensures
        r.url@ == config.api_layer_url@ + bad_words_path(),
        r.header_name@ == api_key_header(),
        r.header_value@ == config.api_key@,
        r.body == content,
{
    proof {
        reveal_strlit("/bad_words?censor_character=*");
        reveal_strlit("apikey");
    }
    let url = config.api_layer_url.clone().concat("/bad_words?censor_character=*");
    let header_name = String::from_str("apikey");
    assert(url@ =~= config.api_layer_url@ + bad_words_path());
    assert(header_name@ =~= api_key_header());
    ModerationRequest { url, header_name, header_value: config.api_key.clone(), body: content }
}

/// Turns a response into the call's result.
pub fn classify_response(resp: UpstreamResponse) -> (r: Result<String, Error>)
    ensures
        r == classified(resp),
{
    let status = resp.status;
    if 200 <= status && status <= 299 {
        match resp.success_body {
            Some(b) => Ok(b.censored_content),
            None => Err(Error::ResponseDecodeError),
        }
    } else {
        let message = match resp.error_body {
            Some(e) => e.message,
            None => resp.body,
        };
        let err = APILayerError { status, message };
        if 400 <= status && status <= 499 {
            Err(Error::UpstreamClientError(err))
        } else {
            Err(Error::UpstreamServerError(err))
        }
    }
}

/// The step after an attempt, given the retry policy's wait before the next
/// one (`None`: no retry is left).
pub fn step_after(exchange: Exchange, next_wait: Option<u64>) -> (r: Step)
    ensures
        exchange is TransportFailure ==> match next_wait {
            Some(w) => r == Step::Retry { wait_ms: w },
            None => r == Step::Done(Err(Error::TransportError)),
        },
        exchange matches Exchange::Response(resp) ==> r == Step::Done(classified(resp)),
{
    match exchange {
        Exchange::TransportFailure => match next_wait {
            Some(wait_ms) => Step::Retry { wait_ms },
            None => Step::Done(Err(Error::TransportError)),
        },
        Exchange::Response(resp) => Step::Done(classify_response(resp)),
    }
}

/// The step after an attempt, when `retries_done` retries came before it.
pub fn next_step(policy: &RetryPolicy, retries_done: u32, exchange: Exchange) -> (r: Step)
    ensures
        step_owed(policy.max_retries, retries_done, exchange, r),
{
    let next_wait = match exchange {
        Exchange::TransportFailure => policy.next_wait(retries_done),
        Exchange::Response(_) => None,
    };
    step_after(exchange, next_wait)
}

/// Attempts made and result of a call whose attempts give, in order,
/// `exchanges`, when `retries_done` retries came before the first of them;
/// the result is `None` where the exchanges ran out before the call ended.
pub open spec fn run_outcome(max_retries: u32, exchanges: Seq<Exchange>, retries_done: nat) -> (
    nat,
    Option<Result<String, Error>>,
)
    decreases exchanges.len(),
{
    if exchanges.len() == 0 {
        (0, None)
    } else {
        match exchanges[0] {
            Exchange::TransportFailure => if retries_done < max_retries {
                let rest = run_outcome(max_retries, exchanges.drop_first(), retries_done + 1);
                (rest.0 + 1, rest.1)
            } else {
                (1, Some(Err(Error::TransportError)))
            },
            Exchange::Response(resp) => (1, Some(classified(resp))),
        }
    }
}

/// Runs the client against a scripted upstream whose attempts give, in
/// order, `exchanges`: the number of attempts made and the call's result
/// (`None` where the script ran out first).
pub fn run_scripted(policy: &RetryPolicy, exchanges: Vec<Exchange>) -> (r: (
    usize,
    Option<Result<String, Error>>,
))
    ensures
        r.0 == run_outcome(policy.max_retries, exchanges@, 0).0,
        r.1 == run_outcome(policy.max_retries, exchanges@, 0).1,
{
    let total: usize = exchanges.len();
    let mut rest = exchanges;
    let mut done: u32 = 0;
    let ghost m = policy.max_retries;
    while rest.len() > 0
        invariant
            done <= m,
            done + rest@.len() == exchanges@.len(),
            total == exchanges@.len(),
            m == policy.max_retries,
            run_outcome(m, exchanges@, 0).0 == done + run_outcome(m, rest@, done as nat).0,
            run_outcome(m, exchanges@, 0).1 == run_outcome(m, rest@, done as nat).1,
        decreases rest.len(),
    {
        let ghost before = rest@;
        let e = rest.remove(0);
        assert(rest@ =~= before.drop_first());
        match next_step(policy, done, e) {
            Step::Retry { .. } => {
                done = done + 1;
            },
            Step::Done(res) => {
                return ((done as usize) + 1, Some(res));
            },
        }
    }
    (done as usize, None)
}

/// Every attempt failing in transport: the policy's retries are all made,
/// no more, and the call ends in a transport error after `max_retries + 1`
/// attempts.
pub proof fn lemma_transport_failures_exhaust_retries(max_retries: u32, exchanges: Seq<Exchange>)
    requires
        exchanges.len() > max_retries,
        forall|i: int| 0 <= i < exchanges.len() ==> #[trigger] exchanges[i] is TransportFailure,
    ensures
        run_outcome(max_retries, exchanges, 0) == (
        max_retries as nat + 1,
        Some(Err::<String, Error>(Error::TransportError)),
        ),
{
    lemma_failures_from(max_retries, exchanges, 0);
}

proof fn lemma_failures_from(max_retries: u32, exchanges: Seq<Exchange>, retries_done: nat)
    requires
        retries_done <= max_retries,
        exchanges.len() + retries_done > max_retries,
        forall|i: int| 0 <= i < exchanges.len() ==> #[trigger] exchanges[i] is TransportFailure,
    ensures
        run_outcome(max_retries, exchanges, retries_done) == (
        (max_retries - retries_done) as nat + 1,
        Some(Err::<String, Error>(Error::TransportError)),
        ),
    decreases exchanges.len(),
{
    assert(exchanges[0] is TransportFailure);
    if retries_done < max_retries {
        let rest = exchanges.drop_first();
        assert forall|i: int| 0 <= i < rest.len() implies #[trigger] rest[i] is TransportFailure by {
            assert(rest[i] == exchanges[i + 1]);
        }
        lemma_failures_from(max_retries, rest, retries_done + 1);
    }
}

/// Whatever the attempts give, a call makes at most `max_retries + 1` of
/// them: no retry is made beyond the policy's budget.
pub proof fn lemma_attempts_within_budget(max_retries: u32, exchanges: Seq<Exchange>)
    ensures
        run_outcome(max_retries, exchanges, 0).0 <= max_retries as nat + 1,
{
    lemma_attempts_from(max_retries, exchanges, 0);
}

proof fn lemma_attempts_from(max_retries: u32, exchanges: Seq<Exchange>, retries_done: nat)
    requires
        retries_done <= max_retries,
    ensures
        run_outcome(max_retries, exchanges, retries_done).0 <= (max_retries - retries_done) as nat
            + 1,
    decreases exchanges.len(),
{
    if exchanges.len() > 0 && exchanges[0] is TransportFailure && retries_done < max_retries {
        lemma_attempts_from(max_retries, exchanges.drop_first(), retries_done + 1);
    }
}

/// One transport failure and then a successful, decodable response: the
/// call returns the censored text after two attempts, with no error.
pub proof fn lemma_retry_then_success(
    max_retries: u32,
    exchanges: Seq<Exchange>,
    resp: UpstreamResponse,
    body: BadWordsResponse,
)
    requires
        max_retries >= 1,
        exchanges.len() >= 2,
        exchanges[0] is TransportFailure,
        exchanges[1] == Exchange::Response(resp),
        is_success_status(resp.status),
        resp.success_body == Some(body),
    ensures
        run_outcome(max_retries, exchanges, 0) == (2nat, Some(Ok::<String, Error>(body.censored_content))),
{
    let rest = exchanges.drop_first();
    assert(rest[0] == exchanges[1]);
    assert(run_outcome(max_retries, rest, 1) == (1nat, Some(classified(resp))));
}

/// A client-error response (4xx) ends the call at the first attempt with
/// an upstream client error that carries its status and message, whether or
/// not its body decodes.
pub proof fn lemma_client_error_not_retried(
    max_retries: u32,
    exchanges: Seq<Exchange>,
    resp: UpstreamResponse,
)
    requires
        exchanges.len() >= 1,
        exchanges[0] == Exchange::Response(resp),
        is_client_error_status(resp.status),
    ensures
        run_outcome(max_retries, exchanges, 0) == (
        1nat,
        Some(
            Err::<String, Error>(
                Error::UpstreamClientError(APILayerError { status: resp.status, message: error_message(resp) }),
            ),
        ),
        ),
{
}

/// A server-error response (5xx) ends the call at the first attempt with
/// an upstream server error that carries its status and message, whether or
/// not its body decodes.
pub proof fn lemma_server_error_surfaced(
    max_retries: u32,
    exchanges: Seq<Exchange>,
    resp: UpstreamResponse,
)
    requires
        exchanges.len() >= 1,
        exchanges[0] == Exchange::Response(resp),
        500 <= resp.status <= 599,
    ensures
        run_outcome(max_retries, exchanges, 0) == (
        1nat,
        Some(
            Err::<String, Error>(
                Error::UpstreamServerError(APILayerError { status: resp.status, message: error_message(resp) }),
            ),
        ),
        ),
{
}

/// A success status whose body does not decode ends the call at the first
/// attempt with a decode error.
pub proof fn lemma_undecodable_success_body(
    max_retries: u32,
    exchanges: Seq<Exchange>,
    resp: UpstreamResponse,
)
    requires
        exchanges.len() >= 1,
        exchanges[0] == Exchange::Response(resp),
        is_success_status(resp.status),
        resp.success_body is None,
    ensures
        run_outcome(max_retries, exchanges, 0) == (
        1nat,
        Some(Err::<String, Error>(Error::ResponseDecodeError)),
        ),
{
}

} // verus!
