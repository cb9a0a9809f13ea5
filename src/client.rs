//! The dispatcher: it keeps the minimum gap between calls to the service,
//! builds request URLs, and turns each answer into a record or an error.
use vstd::prelude::*;
use crate::json::{DecodeError, Json, field, get_field, string_of, optional_ok, read_string, read_optional_string};
use crate::requests::{Endpoint, ScryfallRequest};
use crate::types::ScryfallResponse;

verus! {

/// The base URL of the service.
pub const SCRYFALL_API: &'static str = "https://api.scryfall.com";

/// The least number of milliseconds between two calls, by default.
pub const SCRYFALL_DEFAULT_WAIT: u64 = 50;

/// An error payload of the service.
#[derive(Debug, PartialEq, Eq)]
pub struct RemoteError {
    /// The HTTP status of the answer.
    pub status: u16,
    /// The service's code for the error (`not_found`, `bad_request`).
    pub code: String,
    /// A finer classification (`ambiguous`), when the service gives one.
    pub kind: Option<String>,
    /// A human-readable explanation.
    pub details: String,
}

/// Why a request did not yield its record.
#[derive(Debug, PartialEq, Eq)]
pub enum ClientError {
    /// The call did not reach the service or its answer did not arrive.
    Transport(String),
    /// The service answered with an error payload.
    Remote(RemoteError),
    /// The service answered with an error status and no error payload.
    Status(u16),
    /// The answer did not decode into the record the request expects.
    Decode(DecodeError),
}

/// A status in `200..300`.
pub open spec fn is_success(status: u16) -> bool {
    200 <= status < 300
}

/// `j` is an error payload: `object` is `error`, with a `code` and `details`.
pub open spec fn is_error_payload(j: Json) -> bool {
    &&& string_of(field(j, "object"@)) matches Some(o) && o@ == "error"@
    &&& string_of(field(j, "code"@)) is Some
    &&& string_of(field(j, "details"@)) is Some
    &&& optional_ok(field(j, "type"@), string_of(field(j, "type"@)) is Some)
}

/// `e` reports the error payload `j` that came with `status`.
pub open spec fn reports_payload(e: RemoteError, status: u16, j: Json) -> bool {
    &&& e.status == status
    &&& string_of(field(j, "code"@)) == Some(e.code)
    &&& string_of(field(j, "details"@)) == Some(e.details)
    &&& string_of(field(j, "type"@)) == e.kind
}

/// Reads an error payload.
fn read_error_payload(status: u16, j: &Json) -> (r: Option<RemoteError>)
    ensures
        match r {
            Some(e) => is_error_payload(*j) && reports_payload(e, status, *j),
            None => !is_error_payload(*j),
        },
{
    let object = match read_string(j, "object") {
        Ok(o) => o,
        Err(_) => {
            return None;
        },
    };
    let error = "error".to_owned();
    if object != error {
        return None;
    }
    let code = match read_string(j, "code") {
        Ok(c) => c,
        Err(_) => {
            return None;
        },
    };
    let details = match read_string(j, "details") {
        Ok(d) => d,
        Err(_) => {
            return None;
        },
    };
    let kind = match read_optional_string(j, "type") {
        Ok(k) => k,
        Err(_) => {
            return None;
        },
    };
    Some(RemoteError { status, code, kind, details })
}

/// The time at which a call asked for at `now` is issued, when the last one
/// went out at `last`: at once, or when `interval` has passed since `last`.
pub open spec fn issue_time(last: Option<u64>, interval: u64, now: u64) -> u64 {
    match last {
        None => now,
        Some(t) => if t + interval > u64::MAX {
            u64::MAX
        } else if now >= t + interval {
            now
        } else {
            (t + interval) as u64
        },
    }
}

/// The client of the service. It owns the base URL and the time of the last
/// call it issued.
#[derive(Debug)]
pub struct ScryfallApi {
    base_url: String,
    min_interval: u64,
    last_request: Option<u64>,
}

impl ScryfallApi {
    /// The base URL that request paths are joined to.
    pub closed spec fn base(self) -> Seq<char> {
        self.base_url@
    }

    /// The least number of milliseconds between two calls.
    pub closed spec fn interval(self) -> u64 {
        self.min_interval
    }

    /// When the last call was issued, in milliseconds since the Unix epoch;
    /// `None` before the first.
    pub closed spec fn last_issued(self) -> Option<u64> {
        self.last_request
    }

    /// A client of the public service, with the default interval.
    pub fn new() -> (r: ScryfallApi)
        ensures
            r.base() == SCRYFALL_API@,
            r.interval() == SCRYFALL_DEFAULT_WAIT,
            r.last_issued() is None,
    {
        ScryfallApi {
            base_url: SCRYFALL_API.to_owned(),
            min_interval: SCRYFALL_DEFAULT_WAIT,
            last_request: None,
        }
    }

    /// A client of the service at `base_url`, keeping `min_interval`
    /// milliseconds between calls.
    pub fn with_base_url(base_url: String, min_interval: u64) -> (r: ScryfallApi)
        ensures
            r.base() == base_url@,
            r.interval() == min_interval,
            r.last_issued() is None,
    {
        ScryfallApi { base_url, min_interval, last_request: None }
    }

    /// The base URL.
    pub fn base_url(&self) -> (r: &str)
        ensures
            r@ == self.base(),
    {
        self.base_url.as_str()
    }

    /// The least number of milliseconds between two calls.
    pub fn min_interval(&self) -> (r: u64)
        ensures
            r == self.interval(),
    {
        self.min_interval
    }

    /// When the last call was issued.
    pub fn last_request(&self) -> (r: Option<u64>)
        ensures
            r == self.last_issued(),
    {
        self.last_request
    }

    /// This client after it has scheduled a call asked for at `now`.
    pub open spec fn scheduled(self, now: u64) -> ScryfallApi {
        self.with_last(issue_time(self.last_issued(), self.interval(), now))
    }

    /// This client with `t` as the time of its last call.
    pub closed spec fn with_last(self, t: u64) -> ScryfallApi {
        ScryfallApi { last_request: Some(t), ..self }
    }

    /// How long a call asked for at `now` must wait, in milliseconds.
    pub fn throttle_wait(&self, now: u64) -> (w: u64)
        ensures
            w == issue_time(self.last_issued(), self.interval(), now) - now,
    {
        self.issue_at(now) - now
    }

    fn issue_at(&self, now: u64) -> (t: u64)
        ensures
            t == issue_time(self.last_issued(), self.interval(), now),
            t >= now,
    {
        match self.last_request {
            None => now,
            Some(last) => {
                let earliest = last.saturating_add(self.min_interval);
                if now >= earliest {
                    now
                } else {
                    earliest
                }
            },
        }
    }

    /// Schedules a call asked for at `now`: records when it is issued, and
    /// returns how long the caller must wait before issuing it.
    pub fn schedule(&mut self, now: u64) -> (w: u64)
        ensures
            w == issue_time(old(self).last_issued(), old(self).interval(), now) - now,
            *final(self) == old(self).scheduled(now),
            final(self).last_issued() == Some((now + w) as u64),
            final(self).base() == old(self).base(),
            final(self).interval() == old(self).interval(),
    {
        let t = self.issue_at(now);
        self.last_request = Some(t);
        t - now
    }

    /// The full URL of a request: the base URL followed by its path and query.
    pub fn request_url<T: Endpoint>(&self, req: &T) -> (r: String)
        ensures
            r@ == self.base() + req.target(),
    {
        let mut url = self.base_url.clone();
        let path = req.path();
        url.append(path.as_str());
        url
    }

    /// Turns an answer of the service to `req` into its record or an error:
    /// `status` is the HTTP status, and `body` the answer's JSON, or `None`
    /// when the answer is no JSON.
    pub fn handle_response<T: ScryfallRequest>(&self, req: &T, status: u16, body: Option<&Json>) -> (r: Result<T::Response, ClientError>)
        ensures
            match r {
                Ok(v) => is_success(status) && body is Some
                    && <T::Response as ScryfallResponse>::accepts(*body.unwrap())
                    && <T::Response as ScryfallResponse>::decodes_to(*body.unwrap(), v),
                Err(ClientError::Decode(e)) => is_success(status) && match body {
                    None => e == DecodeError::NotJson,
                    Some(j) => !<T::Response as ScryfallResponse>::accepts(*j)
                        && <T::Response as ScryfallResponse>::rejects_with(*j, e),
                },
                Err(ClientError::Remote(e)) => !is_success(status) && body is Some
                    && is_error_payload(*body.unwrap())
                    && reports_payload(e, status, *body.unwrap()),
                Err(ClientError::Status(s)) => !is_success(status) && s == status
                    && (body is None || !is_error_payload(*body.unwrap())),
                Err(ClientError::Transport(_)) => false,
            },
    {
        let _ = req;
        if 200 <= status && status < 300 {
            match body {
                Some(j) => match <T::Response as ScryfallResponse>::parse(j) {
                    Ok(v) => Ok(v),
                    Err(e) => Err(ClientError::Decode(e)),
                },
                None => Err(ClientError::Decode(DecodeError::NotJson)),
            }
        } else {
            match body {
                Some(j) => match read_error_payload(status, j) {
                    Some(e) => Err(ClientError::Remote(e)),
                    None => Err(ClientError::Status(status)),
                },
                None => Err(ClientError::Status(status)),
            }
        }
    }
}

/// Two calls scheduled one after the other are issued at least the minimum
/// interval apart, however little time passes between the two requests
/// (where the first issue time plus the interval fits in `u64`).
pub proof fn lemma_calls_keep_min_interval(api: ScryfallApi, now1: u64, now2: u64)
    requires
        api.scheduled(now1).last_issued().unwrap() + api.interval() <= u64::MAX,
    ensures
        api.scheduled(now1).scheduled(now2).last_issued().unwrap() >= api.scheduled(
            now1,
        ).last_issued().unwrap() + api.interval(),
        api.scheduled(now1).scheduled(now2).last_issued().unwrap() >= now2,
{
}

} // verus!
