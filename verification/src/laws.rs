//! Laws of the request pipeline, each proved from the contracts of
//! `call` and `finish` alone.

use vstd::prelude::*;
use crate::auth::{spec_bearer_token, Header};
use crate::controller::{call_post, finish_post, images_post, is_error_response,
    spec_join_objects, spec_request_parts, spec_success_body, spec_url_object, ControllerImpl,
    RequestPlan, Response, UploadOutcome};
use crate::errors::ErrorKind;
use crate::images::{spec_mime, spec_sniff};
use crate::routes::{spec_route, Method, Route};
use crate::s3::{plan_for_part, spec_url};
use crate::text::{spec_desc_bad_image, spec_desc_missing_token, spec_desc_no_images,
    spec_desc_not_found};

verus! {

/// Every request that matches no route is answered with the 404
/// envelope, whatever its headers and body hold.
pub proof fn lemma_unmatched_route_is_not_found(
    c: ControllerImpl,
    m: Method,
    path: Seq<u8>,
    headers: Seq<Header>,
    body: Seq<u8>,
    r: RequestPlan,
)
    requires
        call_post(c, m, path, headers, body, r),
        spec_route(m, path) is None,
    ensures
        match r {
            RequestPlan::Respond(resp) => resp.status == 404 && is_error_response(
                resp,
                c.config.acao@,
                ErrorKind::NotFound,
                spec_desc_not_found(),
            ),
            RequestPlan::Upload(_) => false,
        },
{
}

/// A request for the images route without a bearer token is answered
/// 401 with the missing-token envelope, regardless of its body.
pub proof fn lemma_missing_token_is_unauthorized(
    c: ControllerImpl,
    m: Method,
    path: Seq<u8>,
    headers: Seq<Header>,
    body: Seq<u8>,
    r: RequestPlan,
)
    requires
        call_post(c, m, path, headers, body, r),
        spec_route(m, path) == Some(Route::Images),
        spec_bearer_token(headers) is None,
    ensures
        match r {
            RequestPlan::Respond(resp) => resp.status == 401 && is_error_response(
                resp,
                c.config.acao@,
                ErrorKind::Unauthorized,
                spec_desc_missing_token(),
            ),
            RequestPlan::Upload(_) => false,
        },
{
}

/// Upload plans are only ever handed out for the images route, and only
/// when the request carried a bearer token.
pub proof fn lemma_upload_only_when_authorized(
    c: ControllerImpl,
    m: Method,
    path: Seq<u8>,
    headers: Seq<Header>,
    body: Seq<u8>,
    r: RequestPlan,
)
    requires
        call_post(c, m, path, headers, body, r),
        r is Upload,
    ensures
        spec_route(m, path) == Some(Route::Images),
        spec_bearer_token(headers) is Some,
{
}

/// When any part of an upload is not a recognizable image, the pipeline
/// answers with the 400 `Image` envelope and no upload plan — so no URL
/// is ever returned for such a request.
pub proof fn lemma_unrecognized_part_rejected(
    acao: Seq<u8>,
    bucket: Seq<u8>,
    headers: Seq<Header>,
    body: Seq<u8>,
    r: RequestPlan,
    ps: Seq<Seq<u8>>,
)
    requires
        images_post(acao, bucket, headers, body, r),
        spec_request_parts(headers, body) == Some(ps),
        exists|i: int| 0 <= i < ps.len() && spec_sniff(#[trigger] ps[i]) is None,
    ensures
        match r {
            RequestPlan::Respond(resp) => resp.status == 400 && is_error_response(
                resp,
                acao,
                ErrorKind::Image,
                spec_desc_bad_image(),
            ),
            RequestPlan::Upload(_) => false,
        },
{
}

/// A body that decomposes into no parts at all is rejected with the 400
/// `Parse` envelope that names the absence of images.
pub proof fn lemma_zero_parts_rejected(
    acao: Seq<u8>,
    bucket: Seq<u8>,
    headers: Seq<Header>,
    body: Seq<u8>,
    r: RequestPlan,
)
    requires
        images_post(acao, bucket, headers, body, r),
        spec_request_parts(headers, body) == Some(Seq::<Seq<u8>>::empty()),
    ensures
        match r {
            RequestPlan::Respond(resp) => resp.status == 400 && is_error_response(
                resp,
                acao,
                ErrorKind::Parse,
                spec_desc_no_images(),
            ),
            RequestPlan::Upload(_) => false,
        },
{
}

/// Whenever upload plans come back, there is one per part, in part
/// order, and each plan stores exactly its part's bytes under a URL that
/// addresses the plan's own key in the configured bucket, with the MIME
/// type of the part's detected format.
pub proof fn lemma_upload_preserves_parts(
    c: ControllerImpl,
    m: Method,
    path: Seq<u8>,
    headers: Seq<Header>,
    body: Seq<u8>,
    plans: Vec<crate::s3::UploadPlan>,
)
    requires
        call_post(c, m, path, headers, body, RequestPlan::Upload(plans)),
    ensures
        spec_request_parts(headers, body) is Some,
        plans@.len() == spec_request_parts(headers, body)->Some_0.len(),
        forall|i: int|
            0 <= i < plans@.len() ==> #[trigger] plans@[i].bytes@ == spec_request_parts(
                headers,
                body,
            )->Some_0[i],
        forall|i: int|
            0 <= i < plans@.len() ==> #[trigger] plans@[i].url@ == spec_url(
                c.config.bucket@,
                plans@[i].key@,
            ),
        forall|i: int|
            0 <= i < plans@.len() ==> #[trigger] plans@[i].content_type@ == spec_mime(
                spec_sniff(spec_request_parts(headers, body)->Some_0[i])->Some_0,
            ),
{
    let r = RequestPlan::Upload(plans);
    let ps = spec_request_parts(headers, body)->Some_0;
    assert(images_post(c.config.acao@, c.config.bucket@, headers, body, r));
    assert forall|i: int| 0 <= i < plans@.len() implies #[trigger] plans@[i].bytes@ == ps[i]
        && plans@[i].url@ == spec_url(c.config.bucket@, plans@[i].key@) && plans@[i].content_type@
        == spec_mime(spec_sniff(ps[i])->Some_0) by {
        assert(plan_for_part(plans@[i], ps[i], c.config.bucket@));
    }
}

/// Every direct response of `call` carries the configured
/// `Access-Control-Allow-Origin` value.
pub proof fn lemma_call_response_has_acao(
    c: ControllerImpl,
    m: Method,
    path: Seq<u8>,
    headers: Seq<Header>,
    body: Seq<u8>,
    r: RequestPlan,
)
    requires
        call_post(c, m, path, headers, body, r),
    ensures
        match r {
            RequestPlan::Respond(resp) => resp.acao@ == c.config.acao@,
            RequestPlan::Upload(_) => true,
        },
{
}

/// Every response of `finish` carries the configured
/// `Access-Control-Allow-Origin` value.
pub proof fn lemma_finish_response_has_acao(
    acao: Seq<u8>,
    urls: Seq<Seq<u8>>,
    outcome: UploadOutcome,
    r: Response,
)
    requires
        finish_post(acao, urls, outcome, r),
    ensures
        r.acao@ == acao,
{
}

/// The health route's answer does not depend on headers or body, and
/// two requests to it are answered alike: the endpoint is stateless and
/// idempotent.
pub proof fn lemma_healthcheck_stateless(
    c: ControllerImpl,
    m: Method,
    path: Seq<u8>,
    h1: Seq<Header>,
    b1: Seq<u8>,
    r1: RequestPlan,
    h2: Seq<Header>,
    b2: Seq<u8>,
    r2: RequestPlan,
)
    requires
        call_post(c, m, path, h1, b1, r1),
        call_post(c, m, path, h2, b2, r2),
        spec_route(m, path) == Some(Route::Healthcheck),
    ensures
        match (r1, r2) {
            (RequestPlan::Respond(p1), RequestPlan::Respond(p2)) => p1.status == p2.status
                && p1.status == 200 && p1.body@ == p2.body@ && p1.content_type@ == p2.content_type@
                && p1.acao@ == p2.acao@,
            _ => false,
        },
{
}

/// A stored upload of exactly one part is answered with the single
/// object form, and of two parts with a two-element array: the objects
/// stand in input order between one `[` and one `]`, separated by `,`.
pub proof fn lemma_success_body_shape(u1: Seq<u8>, u2: Seq<u8>)
    ensures
        spec_success_body(seq![u1]) == spec_url_object(u1),
        spec_success_body(seq![u1, u2]) == seq![91u8] + spec_url_object(u1) + seq![44u8]
            + spec_url_object(u2) + seq![93u8],
{
    let one = seq![u1];
    assert(spec_success_body(one) == spec_url_object(u1));
    let two = seq![u1, u2];
    let tail = two.subrange(1, 2);
    assert(tail =~= seq![u2]);
    assert(spec_join_objects(tail) == spec_url_object(u2));
    assert(spec_join_objects(two) == spec_url_object(u1) + seq![44u8] + spec_url_object(u2));
    assert(seq![91u8] + (spec_url_object(u1) + seq![44u8] + spec_url_object(u2)) + seq![93u8] =~= seq![91u8]
        + spec_url_object(u1) + seq![44u8] + spec_url_object(u2) + seq![93u8]);
}

/// A successful `finish` answers 200 and its body is the success body of
/// the planned URLs: one object for one URL, an array in order otherwise.
pub proof fn lemma_success_response_shape(
    acao: Seq<u8>,
    urls: Seq<Seq<u8>>,
    r: Response,
)
    requires
        finish_post(acao, urls, UploadOutcome::Done, r),
    ensures
        r.status == 200,
        r.body@ == spec_success_body(urls),
        urls.len() == 1 ==> r.body@ == spec_url_object(urls[0]),
        urls.len() != 1 ==> r.body@ == seq![91u8] + spec_join_objects(urls) + seq![93u8],
{
}

} // verus!
