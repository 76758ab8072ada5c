use vstd::prelude::*;

use crate::error::PersonError;
use crate::model::Person;

verus! {

pub const OK: u16 = 200;

pub const CREATED: u16 = 201;

pub const INTERNAL_SERVER_ERROR: u16 = 500;

pub const BAD_GATEWAY: u16 = 502;

pub const SERVICE_UNAVAILABLE: u16 = 503;

/// What a response carries.
pub enum Body {
    Text(String),
    Person(Person),
    Persons(Vec<Person>),
}

/// An HTTP response: a status code and a body.
pub struct Response {
    pub status: u16,
    pub body: Body,
}

pub open spec fn ok_text() -> Seq<char> {
    "OK"@
}

pub open spec fn internal_error_text() -> Seq<char> {
    "Internal Server Error"@
}

pub open spec fn unavailable_text() -> Seq<char> {
    "Service Unavailable"@
}

pub open spec fn bad_gateway_text() -> Seq<char> {
    "Bad Gateway"@
}

/// `r` has status `status` and the plain-text body `text`.
pub open spec fn is_text_reply(r: Response, status: u16, text: Seq<char>) -> bool {
    &&& r.status == status
    &&& match r.body {
        Body::Text(t) => t@ == text,
        _ => false,
    }
}

/// The reply to `POST /persons` once the insert has come back with `outcome`:
/// the created person with 201, or a generic 500 that tells nothing of the
/// storage failure.
pub open spec fn create_reply(outcome: Result<Person, PersonError>, r: Response) -> bool {
    match outcome {
        Ok(p) => r == (Response { status: CREATED, body: Body::Person(p) }),
        Err(_) => is_text_reply(r, INTERNAL_SERVER_ERROR, internal_error_text()),
    }
}

/// The reply to `GET /persons` once the listing has come back with `outcome`:
/// every person listed, in the order given, with 200, or a generic 500.
pub open spec fn list_reply(outcome: Result<Vec<Person>, PersonError>, r: Response) -> bool {
    match outcome {
        Ok(v) => r == (Response { status: OK, body: Body::Persons(v) }),
        Err(_) => is_text_reply(r, INTERNAL_SERVER_ERROR, internal_error_text()),
    }
}

/// A plain-text response.
pub fn text_response(status: u16, text: &str) -> (r: Response)
    ensures
        is_text_reply(r, status, text@),
{
    Response { status, body: Body::Text(text.to_owned()) }
}

/// The generic 500 that stands for any storage failure.
fn internal_error() -> (r: Response)
    ensures
        is_text_reply(r, INTERNAL_SERVER_ERROR, internal_error_text()),
{
    proof {
        reveal_strlit("Internal Server Error");
    }
    text_response(INTERNAL_SERVER_ERROR, "Internal Server Error")
}

/// The response of `POST /persons`.
pub fn create_response(outcome: Result<Person, PersonError>) -> (r: Response)
    ensures
        create_reply(outcome, r),
{
    match outcome {
        Ok(p) => Response { status: CREATED, body: Body::Person(p) },
        Err(_) => internal_error(),
    }
}

/// The response of `GET /persons`.
pub fn list_response(outcome: Result<Vec<Person>, PersonError>) -> (r: Response)
    ensures
        list_reply(outcome, r),
{
    match outcome {
        Ok(v) => Response { status: OK, body: Body::Persons(v) },
        Err(_) => internal_error(),
    }
}

/// The response of `GET /health/live`: the process runs, whatever state the
/// storage engine is in.
pub fn live_response() -> (r: Response)
    ensures
        is_text_reply(r, OK, ok_text()),
{
    proof {
        reveal_strlit("OK");
    }
    text_response(OK, "OK")
}

/// The response of `GET /health/ready`, given whether a connection could be
/// had and a trivial query ran on it.
pub fn ready_response(probe_succeeded: bool) -> (r: Response)
    ensures
        probe_succeeded ==> is_text_reply(r, OK, ok_text()),
        !probe_succeeded ==> is_text_reply(r, SERVICE_UNAVAILABLE, unavailable_text()),
{
    if probe_succeeded {
        live_response()
    } else {
        proof {
            reveal_strlit("Service Unavailable");
        }
        text_response(SERVICE_UNAVAILABLE, "Service Unavailable")
    }
}

} // verus!
