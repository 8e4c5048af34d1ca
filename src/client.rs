//! Client configuration and the preparation of each request attempt.

use crate::backoff::{
    capped_backoff, capped_delay, jittered_delay, lemma_pow2_exceeds_u64, pow2, random_up_to,
};
use crate::error::{PayjpError, PayjpResult};
use crate::form::{
    ascii_pairs, form_of_ascii, form_urlencoded_of, pairs_view, urlencode_pairs, FormPair,
};
use crate::text::{all_white, lemma_trim_padded, tight, trim_text, trimmed};
use base64::Engine;
use vstd::prelude::*;

verus! {

/// Default base URL of the API.
pub const DEFAULT_BASE_URL: &'static str = "https://api.pay.jp/v1";

/// Default maximum number of retries of a rate-limited request.
pub const DEFAULT_MAX_RETRY: u32 = 3;

/// Default delay before the first retry, in milliseconds.
pub const DEFAULT_RETRY_INITIAL_DELAY_MS: u64 = 500;

/// Default ceiling of the delay between retries, in milliseconds.
pub const DEFAULT_RETRY_MAX_DELAY_MS: u64 = 10_000;

/// Default timeout of one HTTP attempt, in milliseconds.
pub const DEFAULT_TIMEOUT_MS: u64 = 30_000;

/// Version of this library.
pub const VERSION: &'static str = "0.1.0";

/// `User-Agent` header value of every request.
pub const USER_AGENT: &'static str = "payjp-rust/0.1.0";

/// `Content-Type` of a form-encoded request body.
pub const FORM_CONTENT_TYPE: &'static str = "application/x-www-form-urlencoded";

/// Configuration options of a client.
#[derive(Debug, Clone)]
pub struct ClientOptions {
    /// Base URL of the API.
    pub base_url: String,
    /// Maximum number of retries of a rate-limited request.
    pub max_retry: u32,
    /// Delay before the first retry, in milliseconds.
    pub retry_initial_delay_ms: u64,
    /// Ceiling of the delay between retries, in milliseconds.
    pub retry_max_delay_ms: u64,
    /// Timeout of one HTTP attempt, in milliseconds.
    pub timeout_ms: u64,
}

/// The options hold the documented defaults.
pub open spec fn is_default_options(o: ClientOptions) -> bool {
    &&& o.base_url@ == DEFAULT_BASE_URL@
    &&& o.max_retry == DEFAULT_MAX_RETRY
    &&& o.retry_initial_delay_ms == DEFAULT_RETRY_INITIAL_DELAY_MS
    &&& o.retry_max_delay_ms == DEFAULT_RETRY_MAX_DELAY_MS
    &&& o.timeout_ms == DEFAULT_TIMEOUT_MS
}

impl Default for ClientOptions {
    fn default() -> (r: Self)
        ensures
            is_default_options(r),
    {
        ClientOptions {
            base_url: String::from_str(DEFAULT_BASE_URL),
            max_retry: DEFAULT_MAX_RETRY,
            retry_initial_delay_ms: DEFAULT_RETRY_INITIAL_DELAY_MS,
            retry_max_delay_ms: DEFAULT_RETRY_MAX_DELAY_MS,
            timeout_ms: DEFAULT_TIMEOUT_MS,
        }
    }
}

impl ClientOptions {
    /// Options with the default values.
    pub fn new() -> (r: Self)
        ensures
            is_default_options(r),
    {
        ClientOptions::default()
    }

    /// Sets the base URL of the API.
    pub fn base_url(self, url: &str) -> (r: Self)
        ensures
            r.base_url@ == url@,
            r.max_retry == self.max_retry,
            r.retry_initial_delay_ms == self.retry_initial_delay_ms,
            r.retry_max_delay_ms == self.retry_max_delay_ms,
            r.timeout_ms == self.timeout_ms,
    {
        ClientOptions { base_url: String::from_str(url), ..self }
    }

    /// Sets the maximum number of retries.
    pub fn max_retry(self, max_retry: u32) -> (r: Self)
        ensures
            r == (ClientOptions { max_retry, ..self }),
    {
        ClientOptions { max_retry, ..self }
    }

    /// Sets the delay before the first retry, in milliseconds.
    pub fn retry_initial_delay(self, delay_ms: u64) -> (r: Self)
        ensures
            r == (ClientOptions { retry_initial_delay_ms: delay_ms, ..self }),
    {
        ClientOptions { retry_initial_delay_ms: delay_ms, ..self }
    }

    /// Sets the ceiling of the delay between retries, in milliseconds.
    pub fn retry_max_delay(self, delay_ms: u64) -> (r: Self)
        ensures
            r == (ClientOptions { retry_max_delay_ms: delay_ms, ..self }),
    {
        ClientOptions { retry_max_delay_ms: delay_ms, ..self }
    }

    /// Sets the timeout of one HTTP attempt, in milliseconds.
    pub fn timeout(self, timeout_ms: u64) -> (r: Self)
        ensures
            r == (ClientOptions { timeout_ms, ..self }),
    {
        ClientOptions { timeout_ms, ..self }
    }
}

/// HTTP method of a request.
#[derive(Debug, Clone, Copy, PartialEq, Eq, Structural)]
pub enum Method {
    /// GET: parameters go into the query string.
    Get,
    /// POST: parameters go into a form-encoded body.
    Post,
    /// DELETE: parameters, if any, go into a form-encoded body.
    Delete,
}

/// The immutable configuration of a client: its credential, endpoint and
/// retry policy.
#[derive(Debug, Clone)]
pub struct PayjpClient {
    api_key: String,
    base_url: String,
    max_retry: u32,
    retry_initial_delay_ms: u64,
    retry_max_delay_ms: u64,
    timeout_ms: u64,
}

/// What standard Base64 (with padding) makes of the UTF-8 bytes of a text.
pub uninterp spec fn base64_of(s: Seq<char>) -> Seq<char>;

/// Relies on `base64::engine::general_purpose::STANDARD.encode`: the
/// standard, padded Base64 text of the UTF-8 bytes of `s`.
#[verifier::external_body]
fn base64_text(s: &str) -> (r: String)
    ensures
        r@ == base64_of(s@),
{
    base64::engine::general_purpose::STANDARD.encode(s.as_bytes())
}

/// The `Authorization` value for a key: Basic authentication with the key as
/// user name and an empty password.
pub open spec fn basic_auth_of(api_key: Seq<char>) -> Seq<char> {
    "Basic "@ + base64_of(api_key + ":"@)
}

/// The body of one attempt, after encoding the request's parameters.
#[derive(Debug, Clone)]
pub enum EncodedBody {
    /// The request carries no parameters.
    Absent,
    /// The parameters in `application/x-www-form-urlencoded` form.
    Encoded(String),
    /// The parameters could not be encoded.
    Failed,
}

/// Everything the transport needs to send one attempt.
#[derive(Debug, Clone)]
pub struct PreparedRequest {
    /// HTTP method.
    pub method: Method,
    /// Absolute URL, with the query string for a GET with parameters.
    pub url: String,
    /// `Authorization` header value.
    pub authorization: String,
    /// `User-Agent` header value.
    pub user_agent: String,
    /// `Content-Type` header value, when a body is sent.
    pub content_type: Option<String>,
    /// Form-encoded body, when one is sent.
    pub body: Option<String>,
}

/// The query string appended to the URL of a request.
pub open spec fn query_suffix(method: Method, encoded: Option<Seq<char>>) -> Seq<char> {
    match encoded {
        Some(s) => if method == Method::Get && s.len() > 0 {
            "?"@ + s
        } else {
            Seq::empty()
        },
        None => Seq::empty(),
    }
}

/// The characters of an optional text.
pub open spec fn text_option(t: Option<String>) -> Option<Seq<char>> {
    match t {
        Some(s) => Some(s@),
        None => None,
    }
}

/// The body sent with a request.
pub open spec fn sent_body(method: Method, encoded: Option<Seq<char>>) -> Option<Seq<char>> {
    match encoded {
        Some(s) => if method == Method::Get {
            None
        } else {
            Some(s)
        },
        None => None,
    }
}

/// Message of the error for parameters that cannot be encoded.
pub const ENCODE_FAILURE: &'static str = "Failed to encode form data";

impl PayjpClient {
    /// The stored API key.
    pub closed spec fn spec_api_key(&self) -> Seq<char> {
        self.api_key@
    }

    /// The base URL of the API.
    pub closed spec fn spec_base_url(&self) -> Seq<char> {
        self.base_url@
    }

    /// The maximum number of retries.
    pub closed spec fn spec_max_retry(&self) -> u32 {
        self.max_retry
    }

    /// The delay before the first retry, in milliseconds.
    pub closed spec fn spec_retry_initial_delay_ms(&self) -> u64 {
        self.retry_initial_delay_ms
    }

    /// The ceiling of the delay between retries, in milliseconds.
    pub closed spec fn spec_retry_max_delay_ms(&self) -> u64 {
        self.retry_max_delay_ms
    }

    /// The timeout of one HTTP attempt, in milliseconds.
    pub closed spec fn spec_timeout_ms(&self) -> u64 {
        self.timeout_ms
    }

    /// The client holds the trimmed key and the given options.
    pub open spec fn configured_by(&self, api_key: Seq<char>, o: ClientOptions) -> bool {
        &&& self.spec_api_key() == trimmed(api_key)
        &&& self.spec_base_url() == o.base_url@
        &&& self.spec_max_retry() == o.max_retry
        &&& self.spec_retry_initial_delay_ms() == o.retry_initial_delay_ms
        &&& self.spec_retry_max_delay_ms() == o.retry_max_delay_ms
        &&& self.spec_timeout_ms() == o.timeout_ms
    }

    /// The client holds the trimmed key and the default options.
    pub open spec fn configured_by_default(&self, api_key: Seq<char>) -> bool {
        &&& self.spec_api_key() == trimmed(api_key)
        &&& self.spec_base_url() == DEFAULT_BASE_URL@
        &&& self.spec_max_retry() == DEFAULT_MAX_RETRY
        &&& self.spec_retry_initial_delay_ms() == DEFAULT_RETRY_INITIAL_DELAY_MS
        &&& self.spec_retry_max_delay_ms() == DEFAULT_RETRY_MAX_DELAY_MS
        &&& self.spec_timeout_ms() == DEFAULT_TIMEOUT_MS
    }

    /// The capped exponential delay before retry number `attempt + 1`.
    pub open spec fn spec_capped_delay(&self, attempt: u32) -> int {
        capped_delay(
            self.spec_retry_initial_delay_ms() as int,
            self.spec_retry_max_delay_ms() as int,
            attempt as nat,
        )
    }

    /// A client with the given key and the default options. Leading and
    /// trailing white space of the key is removed.
    pub fn new(api_key: &str) -> (r: Self)
        ensures
            r.configured_by_default(api_key@),
    {
        let o = ClientOptions::new();
        let r = PayjpClient::with_options(api_key, o);
        r
    }

    /// A client with the given key and options. Leading and trailing white
    /// space of the key is removed.
    pub fn with_options(api_key: &str, options: ClientOptions) -> (r: Self)
        ensures
            r.configured_by(api_key@, options),
    {
        PayjpClient {
            api_key: trim_text(api_key),
            base_url: options.base_url,
            max_retry: options.max_retry,
            retry_initial_delay_ms: options.retry_initial_delay_ms,
            retry_max_delay_ms: options.retry_max_delay_ms,
            timeout_ms: options.timeout_ms,
        }
    }

    /// The base URL of the API.
    pub fn base_url(&self) -> (r: &str)
        ensures
            r@ == self.spec_base_url(),
    {
        self.base_url.as_str()
    }

    /// The stored API key.
    pub fn api_key(&self) -> (r: &str)
        ensures
            r@ == self.spec_api_key(),
    {
        self.api_key.as_str()
    }

    /// The maximum number of retries.
    pub fn max_retry(&self) -> (r: u32)
        ensures
            r == self.spec_max_retry(),
    {
        self.max_retry
    }

    /// The delay before the first retry, in milliseconds.
    pub fn retry_initial_delay_ms(&self) -> (r: u64)
        ensures
            r == self.spec_retry_initial_delay_ms(),
    {
        self.retry_initial_delay_ms
    }

    /// The ceiling of the delay between retries, in milliseconds.
    pub fn retry_max_delay_ms(&self) -> (r: u64)
        ensures
            r == self.spec_retry_max_delay_ms(),
    {
        self.retry_max_delay_ms
    }

    /// The timeout of one HTTP attempt, in milliseconds.
    pub fn timeout_ms(&self) -> (r: u64)
        ensures
            r == self.spec_timeout_ms(),
    {
        self.timeout_ms
    }

    /// The delay before retrying after the attempt numbered `retry_count`
    /// (from zero) was rate limited: equal jitter over the capped exponential
    /// delay, so a random value from its upper half.
    pub fn calculate_retry_delay(&self, retry_count: u32) -> (r: u64)
        ensures
            self.spec_capped_delay(retry_count) / 2 <= r <= self.spec_capped_delay(retry_count),
            retry_count >= 64 && self.spec_retry_initial_delay_ms() >= 1 ==> self.spec_retry_max_delay_ms()
                / 2 <= r <= self.spec_retry_max_delay_ms(),
    {
        proof {
            if retry_count >= 64 && self.retry_initial_delay_ms >= 1 {
                lemma_pow2_exceeds_u64(retry_count as nat);
                let p = pow2(retry_count as nat);
                let i = self.retry_initial_delay_ms as int;
                assert(i * p >= p) by (nonlinear_arith)
                    requires
                        i >= 1,
                        p >= 0,
                ;
            }
        }
        let capped = capped_backoff(self.retry_initial_delay_ms, self.retry_max_delay_ms, retry_count);
        let jitter = random_up_to(capped / 2);
        jittered_delay(capped, jitter)
    }

    /// The absolute URL of a path.
    pub fn request_url(&self, path: &str) -> (r: String)
        ensures
            r@ == self.spec_base_url() + path@,
    {
        let mut url = self.base_url.clone();
        url.append(path);
        url
    }

    /// The `Authorization` header value of every request.
    pub fn authorization_header(&self) -> (r: String)
        ensures
            r@ == basic_auth_of(self.spec_api_key()),
    {
        let mut credentials = self.api_key.clone();
        credentials.append(":");
        let encoded = base64_text(credentials.as_str());
        let mut header = String::from_str("Basic ");
        header.append(encoded.as_str());
        header
    }

    /// `p` is the attempt for the method, the path and the encoded
    /// parameters (`None` when the request has none).
    pub open spec fn prepared_for(&self, p: PreparedRequest, method: Method, path: Seq<char>, encoded: Option<Seq<char>>) -> bool {
        &&& p.method == method
        &&& p.url@ == self.spec_base_url() + path + query_suffix(method, encoded)
        &&& p.authorization@ == basic_auth_of(self.spec_api_key())
        &&& p.user_agent@ == USER_AGENT@
        &&& text_option(p.body) == sent_body(method, encoded)
        &&& (p.content_type matches Some(c) ==> c@ == FORM_CONTENT_TYPE@)
        &&& (p.content_type is Some <==> p.body is Some)
    }

    /// Builds one attempt from the method, the path and the encoded
    /// parameters.
    pub fn assemble_request(&self, method: Method, path: &str, body: EncodedBody) -> (r: PayjpResult<
        PreparedRequest,
    >)
        ensures
            body is Failed ==> (r matches Err(PayjpError::InvalidRequest(m)) && m@ == ENCODE_FAILURE@),
            body is Absent ==> (r matches Ok(p) && self.prepared_for(p, method, path@, None)),
            body matches EncodedBody::Encoded(s) ==> (r matches Ok(p) && self.prepared_for(
                p,
                method,
                path@,
                Some(s@),
            )),
    {
        let mut url = self.request_url(path);
        let mut content_type: Option<String> = None;
        let mut sent: Option<String> = None;
        match body {
            EncodedBody::Failed => {
                return Err(PayjpError::InvalidRequest(String::from_str(ENCODE_FAILURE)));
            },
            EncodedBody::Absent => {
                assert(url@ == url@ + query_suffix(method, None));
            },
            EncodedBody::Encoded(s) => {
                let ghost before = url@;
                if method == Method::Get {
                    if !s.as_str().is_empty() {
                        url.append("?");
                        url.append(s.as_str());
                        assert(url@ =~= before + query_suffix(method, Some(s@)));
                    } else {
                        assert(url@ =~= before + query_suffix(method, Some(s@)));
                    }
                } else {
                    content_type = Some(String::from_str(FORM_CONTENT_TYPE));
                    sent = Some(s);
                    assert(url@ =~= before + query_suffix(method, Some(s@)));
                }
            },
        }
        Ok(PreparedRequest {
            method,
            url,
            authorization: self.authorization_header(),
            user_agent: String::from_str(USER_AGENT),
            content_type,
            body: sent,
        })
    }

    /// Builds one attempt, encoding the parameters if there are any: in the
    /// query string for a GET, as a form body otherwise.
    pub fn prepare_request(&self, method: Method, path: &str, params: Option<&Vec<FormPair>>) -> (r:
        PayjpResult<PreparedRequest>)
        ensures
            params is None ==> (r matches Ok(p) && self.prepared_for(p, method, path@, None)),
            params matches Some(ps) ==> (r matches Ok(p) && self.prepared_for(
                p,
                method,
                path@,
                Some(form_urlencoded_of(pairs_view(ps@))),
            )),
            params matches Some(ps) ==> (ascii_pairs(pairs_view(ps@)) ==> form_urlencoded_of(
                pairs_view(ps@),
            ) == form_of_ascii(pairs_view(ps@))),
    {
        let body = match params {
            None => EncodedBody::Absent,
            Some(ps) => match urlencode_pairs(ps) {
                Some(s) => EncodedBody::Encoded(s),
                None => EncodedBody::Failed,
            },
        };
        self.assemble_request(method, path, body)
    }
}

/// Two clients built from the same key and the same options have the same
/// effective configuration: key, base URL, retry policy and timeout.
pub proof fn lemma_same_inputs_same_configuration(
    a: PayjpClient,
    b: PayjpClient,
    api_key: Seq<char>,
    o: ClientOptions,
)
    requires
        a.configured_by(api_key, o),
        b.configured_by(api_key, o),
    ensures
        a.spec_api_key() == b.spec_api_key(),
        a.spec_base_url() == b.spec_base_url(),
        a.spec_max_retry() == b.spec_max_retry(),
        a.spec_retry_initial_delay_ms() == b.spec_retry_initial_delay_ms(),
        a.spec_retry_max_delay_ms() == b.spec_retry_max_delay_ms(),
        a.spec_timeout_ms() == b.spec_timeout_ms(),
{
}

/// Two clients built from the same key with the default options have the
/// same effective configuration.
pub proof fn lemma_default_construction_idempotent(a: PayjpClient, b: PayjpClient, api_key: Seq<char>)
    requires
        a.configured_by_default(api_key),
        b.configured_by_default(api_key),
    ensures
        a.spec_api_key() == b.spec_api_key(),
        a.spec_base_url() == b.spec_base_url(),
        a.spec_max_retry() == b.spec_max_retry(),
        a.spec_retry_initial_delay_ms() == b.spec_retry_initial_delay_ms(),
        a.spec_retry_max_delay_ms() == b.spec_retry_max_delay_ms(),
        a.spec_timeout_ms() == b.spec_timeout_ms(),
{
}

/// A key padded with white space is stored without it.
pub proof fn lemma_stored_key_is_trimmed(c: PayjpClient, pad_before: Seq<char>, key: Seq<char>, pad_after: Seq<char>)
    requires
        c.spec_api_key() == trimmed(pad_before + key + pad_after),
        all_white(pad_before),
        all_white(pad_after),
        tight(key),
    ensures
        c.spec_api_key() == key,
{
    lemma_trim_padded(pad_before, key, pad_after);
}

} // verus!
