use vstd::prelude::*;

use crate::error::UpstreamError;
use crate::http::{
    bad_gateway_text, is_text_reply, live_response, ok_text, text_response, unavailable_text,
    Response, BAD_GATEWAY, OK, SERVICE_UNAVAILABLE,
};
use crate::model::Person;

verus! {

/// What the gateway renders for `GET /persons`.
pub struct PersonsPage {
    pub persons: Vec<Person>,
    pub page_title: String,
}

/// What the gateway renders for a created person.
pub struct PersonPage {
    pub person: Person,
}

pub open spec fn persons_title() -> Seq<char> {
    "Person"@
}

/// Whether an upstream status code reports success (2xx).
pub open spec fn is_success(status: u16) -> bool {
    200 <= status <= 299
}

pub fn upstream_succeeded(status: u16) -> (r: bool)
    ensures
        r == is_success(status),
{
    200 <= status && status <= 299
}

/// The listing page. A failed fetch from the person service renders an empty
/// list rather than failing the request.
pub fn persons_page(fetched: Result<Vec<Person>, UpstreamError>) -> (r: PersonsPage)
    ensures
        r.page_title@ == persons_title(),
        fetched is Ok ==> r.persons == fetched->Ok_0,
        fetched is Err ==> r.persons@.len() == 0,
{
    let persons = match fetched {
        Ok(v) => v,
        Err(_) => Vec::new(),
    };
    proof {
        reveal_strlit("Person");
    }
    PersonsPage { persons, page_title: "Person".to_owned() }
}

/// The page for a person the person service created. A failed forward is
/// answered with 502, so that a write failure reaches the caller instead of
/// aborting the request.
pub fn person_page(created: Result<Person, UpstreamError>) -> (r: Result<PersonPage, Response>)
    ensures
        created is Ok ==> r == Ok::<PersonPage, Response>(PersonPage { person: created->Ok_0 }),
        created is Err ==> r is Err && is_text_reply(r->Err_0, BAD_GATEWAY, bad_gateway_text()),
{
    match created {
        Ok(person) => Ok(PersonPage { person }),
        Err(_) => {
            proof {
                reveal_strlit("Bad Gateway");
            }
            Err(text_response(BAD_GATEWAY, "Bad Gateway"))
        },
    }
}

/// The gateway's `GET /health/ready`, given the status with which the person
/// service answered its own readiness probe, or `None` when it could not be
/// reached.
pub fn gateway_ready_response(upstream_status: Option<u16>) -> (r: Response)
    ensures
        (upstream_status is Some && is_success(upstream_status->Some_0)) ==> is_text_reply(r, OK, ok_text()),
        !(upstream_status is Some && is_success(upstream_status->Some_0)) ==> is_text_reply(
            r,
            SERVICE_UNAVAILABLE,
            unavailable_text(),
        ),
{
    let reached = match upstream_status {
        Some(status) => upstream_succeeded(status),
        None => false,
    };
    if reached {
        live_response()
    } else {
        proof {
            reveal_strlit("Service Unavailable");
        }
        text_response(SERVICE_UNAVAILABLE, "Service Unavailable")
    }
}

} // verus!
