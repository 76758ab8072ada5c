use person::gateway::{gateway_ready_response, person_page, persons_page, upstream_succeeded};
use person::{Body, Person, Response, UpstreamError};

fn text_of(r: &Response) -> &str {
    match &r.body {
        Body::Text(t) => t.as_str(),
        _ => panic!("expected a text body"),
    }
}

fn sample(id: i32, last_name: &str) -> Person {
    Person::from_row(id, last_name.to_string(), "555-1234".to_string(), Some("NYC".to_string()))
}

#[test]
fn upstream_down_renders_empty_list() {
    let page = persons_page(Err(UpstreamError::new("connection refused")));
    assert!(page.persons.is_empty());
    assert_eq!(page.page_title, "Person");
}

#[test]
fn upstream_list_is_rendered_as_given() {
    let page = persons_page(Ok(vec![sample(2, "Poe"), sample(1, "Doe")]));
    assert_eq!(page.page_title, "Person");
    assert_eq!(page.persons.len(), 2);
    assert_eq!(page.persons[0].id, 2);
    assert_eq!(page.persons[1].last_name, "Doe");
}

#[test]
fn created_person_is_rendered() {
    match person_page(Ok(sample(9, "Doe"))) {
        Ok(page) => {
            assert_eq!(page.person.id, 9);
            assert_eq!(page.person.last_name, "Doe");
        }
        Err(_) => panic!("expected a page"),
    }
}

#[test]
fn failed_forward_is_bad_gateway() {
    match person_page(Err(UpstreamError::new("timeout"))) {
        Ok(_) => panic!("expected an error response"),
        Err(r) => {
            assert_eq!(r.status, 502);
            assert_eq!(text_of(&r), "Bad Gateway");
        }
    }
}

#[test]
fn gateway_readiness_follows_upstream() {
    let up = gateway_ready_response(Some(200));
    assert_eq!(up.status, 200);
    assert_eq!(text_of(&up), "OK");
    assert_eq!(gateway_ready_response(Some(299)).status, 200);
    let unreachable = gateway_ready_response(None);
    assert_eq!(unreachable.status, 503);
    assert_eq!(text_of(&unreachable), "Service Unavailable");
    assert_eq!(gateway_ready_response(Some(503)).status, 503);
    assert_eq!(gateway_ready_response(Some(300)).status, 503);
}

#[test]
fn success_statuses() {
    assert!(!upstream_succeeded(199));
    assert!(upstream_succeeded(200));
    assert!(upstream_succeeded(201));
    assert!(upstream_succeeded(299));
    assert!(!upstream_succeeded(300));
    assert!(!upstream_succeeded(500));
}

#[test]
fn upstream_error_keeps_message() {
    assert_eq!(UpstreamError::new("refused").message, "refused");
}
