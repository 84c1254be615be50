use rand::Rng;
use reqwest::Client as HttpClient;
use url::Url;
use vstd::prelude::*;
use crate::errors::KuponError;
use crate::urls::{copy_url, parse_url, parsed_url_text, set_url_path, url_text, with_path};
use crate::text::joined;
use crate::types::Match;

verus! {

/// The endpoint used when none is configured.
pub const DEFAULT_ENDPOINT: &'static str = "http://localhost:1442";

/// The wait before the first retry, in microseconds.
pub const INITIAL_DELAY_MICROS: u64 = 100_000;

#[verifier::external_type_specification]
#[verifier::external_body]
pub struct ExHttpClient(HttpClient);

/// Relies on `reqwest::ClientBuilder::build` on a fresh builder: an HTTP client with
/// default settings, or the error that prevented it.
#[verifier::external_body]
fn new_http_client() -> Result<HttpClient, reqwest::Error> {
    reqwest::ClientBuilder::new().build()
}

/// Relies on `rand::Rng::gen_range` with the thread-local generator: a number drawn
/// uniformly from `1500..2500`.
#[verifier::external_body]
fn draw_jitter_permille() -> (r: u64)
    ensures
        1500 <= r < 2500,
{
    rand::thread_rng().gen_range(1500..2500)
}

/// Settings for a client: the endpoint and how often a query is retried while the
/// server reports that it is unavailable.
pub struct Builder {
    endpoint: Option<String>,
    retries: usize,
}

impl View for Builder {
    type V = (Option<Seq<char>>, usize);

    closed spec fn view(&self) -> (Option<Seq<char>>, usize) {
        (
            match self.endpoint {
                Some(e) => Some(e@),
                None => None,
            },
            self.retries,
        )
    }
}

/// The endpoint text that a client built from these settings uses.
pub open spec fn endpoint_text(b: (Option<Seq<char>>, usize)) -> Seq<char> {
    match b.0 {
        Some(e) => e,
        None => DEFAULT_ENDPOINT@,
    }
}

impl Default for Builder {
    fn default() -> (r: Builder)
        ensures
            r@ == (None::<Seq<char>>, 0usize),
    {
        Builder { endpoint: None, retries: 0 }
    }
}

impl Builder {
    /// Settings for the server at `endpoint`, with no retries.
    pub fn with_endpoint(endpoint: &str) -> (r: Builder)
        ensures
            r@ == (Some(endpoint@), 0usize),
    {
        Builder { endpoint: Some(String::from_str(endpoint)), retries: 0 }
    }

    /// The same settings, with `retries` retries.
    pub fn with_retries(self, retries: usize) -> (r: Builder)
        ensures
            r@ == (self@.0, retries),
    {
        Builder { retries, ..self }
    }

    /// A client for the configured endpoint. Fails with `InvalidUrl` exactly when
    /// the endpoint is no URL, and with `RequestFailed` when no HTTP client could be
    /// set up.
    pub fn build(self) -> (r: Result<Client, KuponError>)
        ensures
            (r matches Err(KuponError::InvalidUrl(_))) <==> parsed_url_text(endpoint_text(self@)) is None,
            r matches Ok(c) ==> c.retries == self@.1 && parsed_url_text(endpoint_text(self@)) == Some(
                url_text(c.endpoint),
            ),
            r matches Err(e) ==> e is InvalidUrl || e is RequestFailed,
    {
        let endpoint = match &self.endpoint {
            Some(e) => parse_url(e.as_str()),
            None => parse_url(DEFAULT_ENDPOINT),
        };
        let endpoint = match endpoint {
            Ok(u) => u,
            Err(e) => return Err(KuponError::InvalidUrl(e)),
        };
        let http = match new_http_client() {
            Ok(h) => h,
            Err(e) => return Err(KuponError::RequestFailed(e)),
        };
        Ok(Client { http, endpoint, retries: self.retries })
    }
}

/// A client of one index server.
pub struct Client {
    pub http: HttpClient,
    pub endpoint: Url,
    pub retries: usize,
}

/// The path of a datum's resource.
pub open spec fn datum_path(hash: Seq<char>) -> Seq<char> {
    "v1/datums/"@ + hash
}

impl Client {
    /// The URL of the server's health resource.
    pub fn health_url(&self) -> (r: Url)
        ensures
            url_text(r) == with_path(url_text(self.endpoint), "health"@),
    {
        let mut url = copy_url(&self.endpoint);
        set_url_path(&mut url, "health");
        url
    }

    /// The path of the resource of the datum with this hash.
    pub fn datum_path(hash: &str) -> (r: String)
        ensures
            r@ == datum_path(hash@),
    {
        joined("v1/datums/", hash)
    }

    /// The URL of the datum with this hash.
    pub fn datum_url(&self, hash: &str) -> (r: Url)
        ensures
            url_text(r) == with_path(url_text(self.endpoint), datum_path(hash@)),
    {
        let mut url = copy_url(&self.endpoint);
        let path = Client::datum_path(hash);
        set_url_path(&mut url, path.as_str());
        url
    }

    /// A fresh retry state for one query of matches.
    pub fn retry_policy(&self) -> (r: RetryPolicy)
        ensures
            r.remaining == self.retries,
            r.delay_micros == INITIAL_DELAY_MICROS,
    {
        RetryPolicy::new(self.retries)
    }
}

/// How the server answered a query of matches.
pub enum MatchResponse {
    Success(Vec<Match>),
    Failure { hint: String },
    /// No answer could be had or read.
    RequestFailed(reqwest::Error),
}

/// What to do after an answer to a query of matches.
pub enum MatchStep {
    /// The query is over, with this result.
    Done(Result<Vec<Match>, KuponError>),
    /// Wait this long, then ask again.
    Retry { delay_micros: u64 },
}

/// The retries left and the wait before the next one, for one query of matches.
pub struct RetryPolicy {
    pub remaining: usize,
    pub delay_micros: u64,
}

/// The retries left after a failure with this status, or `None` when the failure
/// ends the query: only a 503 is retried, and only while retries are left.
pub open spec fn after_failure(remaining: nat, status: u16) -> Option<nat> {
    if status == 503 && remaining > 0 {
        Some((remaining - 1) as nat)
    } else {
        None
    }
}

/// The wait after `delay` grown by `jitter_permille` thousandths, rounded up and
/// capped at the largest `u64`.
pub open spec fn next_delay(delay: u64, jitter_permille: u64) -> u64 {
    if delay * jitter_permille + 999 <= u64::MAX {
        ((delay * jitter_permille + 999) / 1000) as u64
    } else {
        u64::MAX
    }
}

/// A wait of at least a millisecond, grown by a factor in `[1.5, 2.5)`, is at least
/// one and a half times and less than two and a half times what it was, unless it
/// reached the cap.
pub proof fn lemma_next_delay_grows(delay: u64, jitter_permille: u64)
    requires
        delay >= 1000,
        1500 <= jitter_permille < 2500,
    ensures
        next_delay(delay, jitter_permille) == u64::MAX || (3 * delay <= 2 * next_delay(
            delay,
            jitter_permille,
        ) && 2 * next_delay(delay, jitter_permille) < 5 * delay),
        next_delay(delay, jitter_permille) >= 1000,
{
    let d = delay as int;
    let j = jitter_permille as int;
    let x = d * j;
    if x + 999 <= u64::MAX {
        let q = (x + 999) / 1000;
        assert(1500 * d <= x && x <= 2499 * d) by (nonlinear_arith)
            requires
                1500 <= j <= 2499,
                d >= 0,
                x == d * j,
        ;
        assert(q * 1000 <= x + 999 && x + 999 < q * 1000 + 1000);
        assert(3 * d <= 2 * q);
        assert(2 * q < 5 * d);
    } else {
    }
}

/// Whether a query that may retry `remaining` times gets past `n` answers of 503 with
/// a failure in a row.
pub open spec fn survives_failures(remaining: nat, n: nat) -> bool
    decreases n,
{
    if n == 0 {
        true
    } else {
        match after_failure(remaining, 503) {
            Some(r) => survives_failures(r, (n - 1) as nat),
            None => false,
        }
    }
}

/// A query that may retry `retries` times gets past `n` transient failures in a row
/// exactly when `n` is at most `retries`.
pub proof fn lemma_retries_cover_failures(retries: nat, n: nat)
    ensures
        survives_failures(retries, n) <==> n <= retries,
    decreases n,
{
    if n > 0 && retries > 0 {
        lemma_retries_cover_failures((retries - 1) as nat, (n - 1) as nat);
    }
}

impl RetryPolicy {
    /// The state before the first request of a query that may retry `retries` times.
    pub fn new(retries: usize) -> (r: RetryPolicy)
        ensures
            r.remaining == retries,
            r.delay_micros == INITIAL_DELAY_MICROS,
    {
        RetryPolicy { remaining: retries, delay_micros: INITIAL_DELAY_MICROS }
    }

    /// Decides what follows an answer with this HTTP status, the wait growing by
    /// `jitter_permille` thousandths when a retry is taken. A success ends the query
    /// with its matches, and a failed request with its error; a failure is retried after the current wait when the status
    /// is 503 and retries are left, and otherwise ends the query with its hint.
    pub fn next_step_with(&mut self, status: u16, response: MatchResponse, jitter_permille: u64) -> (r: MatchStep)
        ensures
            match response {
                MatchResponse::Success(m) => r == MatchStep::Done(Ok(m)) && *final(self) == *old(self),
                MatchResponse::RequestFailed(e) => r == MatchStep::Done(Err(KuponError::RequestFailed(e)))
                    && *final(self) == *old(self),
                MatchResponse::Failure { hint } => match after_failure(old(self).remaining as nat, status) {
                    Some(left) => r == (MatchStep::Retry { delay_micros: old(self).delay_micros })
                        && final(self).remaining == left
                        && final(self).delay_micros == next_delay(old(self).delay_micros, jitter_permille),
                    None => r == MatchStep::Done(Err(KuponError::KupoError(hint))) && *final(self) == *old(self),
                },
            },
    {
        match response {
            MatchResponse::Success(m) => MatchStep::Done(Ok(m)),
            MatchResponse::RequestFailed(e) => MatchStep::Done(Err(KuponError::RequestFailed(e))),
            MatchResponse::Failure { hint } => {
                if self.remaining == 0 || status != 503 {
                    return MatchStep::Done(Err(KuponError::KupoError(hint)));
                }
                let delay = self.delay_micros;
                self.remaining = self.remaining - 1;
                self.delay_micros = match delay.checked_mul(jitter_permille) {
                    Some(p) => match p.checked_add(999) {
                        Some(q) => q / 1000,
                        None => u64::MAX,
                    },
                    None => u64::MAX,
                };
                MatchStep::Retry { delay_micros: delay }
            },
        }
    }

    /// As `next_step_with`, with the wait growing by a random factor in `[1.5, 2.5)`.
    pub fn next_step(&mut self, status: u16, response: MatchResponse) -> (r: MatchStep)
        ensures
            match response {
                MatchResponse::Success(m) => r == MatchStep::Done(Ok(m)) && *final(self) == *old(self),
                MatchResponse::RequestFailed(e) => r == MatchStep::Done(Err(KuponError::RequestFailed(e)))
                    && *final(self) == *old(self),
                MatchResponse::Failure { hint } => match after_failure(old(self).remaining as nat, status) {
                    Some(left) => r == (MatchStep::Retry { delay_micros: old(self).delay_micros })
                        && final(self).remaining == left
                        && (exists|j: u64| 1500 <= j < 2500
                            && final(self).delay_micros == next_delay(old(self).delay_micros, j))
                        && (old(self).delay_micros >= 1000 ==> final(self).delay_micros >= 1000 && (
                        final(self).delay_micros == u64::MAX || (3 * old(self).delay_micros <= 2
                            * final(self).delay_micros && 2 * final(self).delay_micros < 5 * old(
                            self,
                        ).delay_micros))),
                    None => r == MatchStep::Done(Err(KuponError::KupoError(hint))) && *final(self) == *old(self),
                },
            },
    {
        let jitter = draw_jitter_permille();
        if self.delay_micros >= 1000 {
            proof {
                lemma_next_delay_grows(self.delay_micros, jitter);
            }
        }
        self.next_step_with(status, response, jitter)
    }
}

/// How the body of a datum answer reads.
pub enum DatumResponse {
    Success { datum: String },
    Failure { hint: String },
}

/// The result of a datum lookup answered with this status and a body that read as
/// `body`, `None` standing for an empty (`null`) body: no datum where the status is
/// 404 (not found), else the datum, no datum, or the failure's hint as an error.
pub fn datum_from_response(status: u16, body: Option<DatumResponse>) -> (r: Result<Option<String>, KuponError>)
    ensures
        status == 404 ==> r == Ok::<Option<String>, KuponError>(None),
        status != 404 ==> match body {
            Some(DatumResponse::Success { datum }) => r == Ok::<Option<String>, KuponError>(Some(datum)),
            Some(DatumResponse::Failure { hint }) => r == Err::<Option<String>, KuponError>(
                KuponError::KupoError(hint),
            ),
            None => r == Ok::<Option<String>, KuponError>(None),
        },
{
    if status == 404 {
        return Ok(None);
    }
    match body {
        Some(DatumResponse::Success { datum }) => Ok(Some(datum)),
        Some(DatumResponse::Failure { hint }) => Err(KuponError::KupoError(hint)),
        None => Ok(None),
    }
}

} // verus!
