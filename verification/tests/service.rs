//! Routing and response behavior that needs no valid credentials.

use statics_lib::auth::Header;
use statics_lib::controller::{Config, ControllerImpl, RequestPlan};
use statics_lib::routes::Method;

fn controller() -> ControllerImpl {
    let config = Config {
        acao: b"https://example.com".to_vec(),
        bucket: b"test-bucket".to_vec(),
        leeway: 60,
    };
    ControllerImpl::new(config, b"not a real key".to_vec())
}

fn header(name: &[u8], value: &[u8]) -> Header {
    Header { name: name.to_vec(), value: value.to_vec() }
}

#[test]
fn healthcheck_ok() {
    let c = controller();
    let r = c.call(Method::Get, &b"/healthcheck".to_vec(), &Vec::new(), &Vec::new());
    match r {
        RequestPlan::Respond(resp) => {
            assert_eq!(resp.status, 200);
            assert_eq!(resp.body, b"ok".to_vec());
            assert_eq!(resp.content_type, b"text/plain".to_vec());
            assert_eq!(resp.acao, b"https://example.com".to_vec());
        },
        RequestPlan::Upload(_) => panic!("healthcheck must answer at once"),
    }
}

#[test]
fn healthcheck_idempotent() {
    let c = controller();
    let hs = vec![header(b"X-Whatever", b"1")];
    let r1 = c.call(Method::Get, &b"/healthcheck".to_vec(), &Vec::new(), &Vec::new());
    let r2 = c.call(Method::Get, &b"/healthcheck".to_vec(), &hs, &b"body".to_vec());
    match (r1, r2) {
        (RequestPlan::Respond(a), RequestPlan::Respond(b)) => {
            assert_eq!(a.status, b.status);
            assert_eq!(a.body, b.body);
            assert_eq!(a.content_type, b.content_type);
            assert_eq!(a.acao, b.acao);
        },
        _ => panic!("healthcheck must answer at once"),
    }
}

#[test]
fn put_images_not_found() {
    let c = controller();
    let r = c.call(Method::Put, &b"/images".to_vec(), &Vec::new(), &Vec::new());
    match r {
        RequestPlan::Respond(resp) => {
            assert_eq!(resp.status, 404);
            assert_eq!(
                resp.body,
                b"{\"code\":404,\"description\":\"Not found\"}".to_vec()
            );
            assert_eq!(resp.acao, b"https://example.com".to_vec());
        },
        RequestPlan::Upload(_) => panic!("unmatched route must answer at once"),
    }
}

#[test]
fn unknown_route_not_found() {
    let c = controller();
    for (m, p) in [
        (Method::Get, &b"/images"[..]),
        (Method::Post, &b"/healthcheck"[..]),
        (Method::Get, &b"/"[..]),
        (Method::Delete, &b"/images"[..]),
        (Method::Post, &b"/images/"[..]),
    ] {
        let r = c.call(m, &p.to_vec(), &Vec::new(), &Vec::new());
        match r {
            RequestPlan::Respond(resp) => assert_eq!(resp.status, 404),
            RequestPlan::Upload(_) => panic!("unmatched route must answer at once"),
        }
    }
}

#[test]
fn missing_token_unauthorized() {
    let c = controller();
    let r = c.call(Method::Post, &b"/images".to_vec(), &Vec::new(), &Vec::new());
    match r {
        RequestPlan::Respond(resp) => {
            assert_eq!(resp.status, 401);
            assert_eq!(
                resp.body,
                b"{\"code\":401,\"description\":\"Missing token\"}".to_vec()
            );
            assert_eq!(resp.content_type, b"application/json".to_vec());
            assert_eq!(resp.acao, b"https://example.com".to_vec());
        },
        RequestPlan::Upload(_) => panic!("an unauthenticated request must not upload"),
    }
}

#[test]
fn authorization_without_bearer_unauthorized() {
    let c = controller();
    let hs = vec![header(b"Authorization", b"Basic dXNlcjpwdw==")];
    let r = c.call(Method::Post, &b"/images".to_vec(), &hs, &Vec::new());
    match r {
        RequestPlan::Respond(resp) => {
            assert_eq!(resp.status, 401);
            assert_eq!(
                resp.body,
                b"{\"code\":401,\"description\":\"Missing token\"}".to_vec()
            );
        },
        RequestPlan::Upload(_) => panic!("an unauthenticated request must not upload"),
    }
}

#[test]
fn garbage_bearer_unauthorized() {
    let c = controller();
    let hs = vec![header(b"Authorization", b"Bearer not.a.jwt")];
    let r = c.call(Method::Post, &b"/images".to_vec(), &hs, &Vec::new());
    match r {
        RequestPlan::Respond(resp) => {
            assert_eq!(resp.status, 401);
            assert_eq!(
                resp.body,
                b"{\"code\":401,\"description\":\"Failed to parse JWT token\"}".to_vec()
            );
        },
        RequestPlan::Upload(_) => panic!("a bad token must not upload"),
    }
}
