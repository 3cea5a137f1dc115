//! Route table of the service: `(method, path)` pairs are matched to the
//! two known routes, everything else falls through to a 404.

use vstd::prelude::*;
use crate::bytes_util::bytes_eq;
use crate::text::{health_path, images_path, spec_health_path, spec_images_path};

verus! {

/// HTTP request method, as far as this service distinguishes them.
#[derive(Clone, Copy, Debug, PartialEq, Eq, Structural)]
pub enum Method {
    Get,
    Post,
    Put,
    Delete,
    Head,
    Options,
    Patch,
    Other,
}

/// The routes the service serves.
#[derive(Clone, Copy, Debug, PartialEq, Eq, Structural)]
pub enum Route {
    Healthcheck,
    Images,
}

/// The route table: `GET /healthcheck`, `POST /images`, nothing else.
pub open spec fn spec_route(m: Method, path: Seq<u8>) -> Option<Route> {
    if m == Method::Get && path == spec_health_path() {
        Some(Route::Healthcheck)
    } else if m == Method::Post && path == spec_images_path() {
        Some(Route::Images)
    } else {
        None
    }
}

/// Matches a request line against the route table.
pub fn parse_route(m: Method, path: &[u8]) -> (r: Option<Route>)
    ensures
        r == spec_route(m, path@),
{
    match m {
        Method::Get => {
            let hp = health_path();
            if bytes_eq(path, hp.as_slice()) {
                Some(Route::Healthcheck)
            } else {
                None
            }
        },
        Method::Post => {
            let ip = images_path();
            if bytes_eq(path, ip.as_slice()) {
                Some(Route::Images)
            } else {
                None
            }
        },
        _ => None,
    }
}

} // verus!
