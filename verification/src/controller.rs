//! The controller: routes a request, verifies its token, decomposes the
//! multipart body, plans the uploads, and assembles the response. All
//! decisions live here; performing the store's PUTs is the caller's job,
//! whose outcome comes back through `finish`.

use vstd::prelude::*;
use crate::auth::{spec_bearer_token, spec_header_value, verify_token, header_value, Header};
use crate::bytes_util::push_all;
use crate::errors::{envelope, json_escape, spec_envelope, spec_escape, ErrorKind};
use crate::images::{sniff_format, spec_sniff, ImageFormat};
use crate::multipart::{boundary_of, parse_multipart, spec_boundary_of, spec_parse_multipart};
use crate::routes::{parse_route, spec_route, Method, Route};
use crate::s3::{make_plan, plan_for_part, UploadPlan};
use crate::text::{application_json, content_type_header_name, desc_bad_image, desc_bad_multipart,
    desc_internal, desc_no_images, desc_not_found, desc_upload_rejected, env_close, ok_body,
    spec_application_json, spec_content_type_header_name, spec_desc_bad_image,
    spec_desc_bad_multipart, spec_desc_bad_token, spec_desc_internal, spec_desc_missing_token,
    spec_desc_no_images, spec_desc_not_found, spec_desc_upload_rejected, spec_env_close,
    spec_ok_body, spec_text_plain, spec_url_obj_open, text_plain, url_obj_open};

verus! {

/// The startup configuration the controller consults.
pub struct Config {
    /// Value of the `Access-Control-Allow-Origin` header of every response.
    pub acao: Vec<u8>,
    /// Bucket the uploads go into.
    pub bucket: Vec<u8>,
    /// Clock tolerance in seconds for JWT expiration.
    pub leeway: i64,
}

/// An HTTP response, ready to be written out.
pub struct Response {
    pub status: u16,
    pub content_type: Vec<u8>,
    pub acao: Vec<u8>,
    pub body: Vec<u8>,
}

/// What a request asks the surrounding server to do next: answer at
/// once, or perform the planned uploads and then call `finish`.
pub enum RequestPlan {
    Respond(Response),
    Upload(Vec<UploadPlan>),
}

/// How the store treated the planned uploads.
#[derive(Clone, Copy, Debug, PartialEq, Eq, Structural)]
pub enum UploadOutcome {
    /// Every object was stored.
    Done,
    /// The store rejected an object.
    Rejected,
    /// The store was unreachable or failed.
    Failed,
}

/// An error response: the kind's status code, a JSON envelope body, and
/// the configured allow-origin header.
pub open spec fn is_error_response(r: Response, acao: Seq<u8>, kind: ErrorKind, desc: Seq<u8>) -> bool {
    &&& r.status == kind.spec_code()
    &&& r.content_type@ == spec_application_json()
    &&& r.acao@ == acao
    &&& r.body@ == spec_envelope(kind, desc)
}

/// The health response: a plain-text 200 `ok`, independent of everything
/// but the configured allow-origin value.
pub open spec fn is_health_response(r: Response, acao: Seq<u8>) -> bool {
    &&& r.status == 200
    &&& r.content_type@ == spec_text_plain()
    &&& r.acao@ == acao
    &&& r.body@ == spec_ok_body()
}

/// One `{"url":"..."}` JSON object.
pub open spec fn spec_url_object(url: Seq<u8>) -> Seq<u8> {
    spec_url_obj_open() + spec_escape(url) + spec_env_close()
}

/// The url objects joined with commas, in order.
pub open spec fn spec_join_objects(urls: Seq<Seq<u8>>) -> Seq<u8>
    decreases urls.len(),
{
    if urls.len() == 0 {
        Seq::<u8>::empty()
    } else if urls.len() == 1 {
        spec_url_object(urls[0])
    } else {
        spec_url_object(urls[0]) + seq![44u8] + spec_join_objects(
            urls.subrange(1, urls.len() as int),
        )
    }
}

/// The success body: a single object for exactly one URL, otherwise a
/// JSON array of the objects in input order.
pub open spec fn spec_success_body(urls: Seq<Seq<u8>>) -> Seq<u8> {
    if urls.len() == 1 {
        spec_url_object(urls[0])
    } else {
        seq![91u8] + spec_join_objects(urls) + seq![93u8]
    }
}

/// The 200 response of a finished upload.
pub open spec fn is_success_response(r: Response, acao: Seq<u8>, urls: Seq<Seq<u8>>) -> bool {
    &&& r.status == 200
    &&& r.content_type@ == spec_application_json()
    &&& r.acao@ == acao
    &&& r.body@ == spec_success_body(urls)
}

/// Builds an error response.
pub fn error_response(acao: &[u8], kind: ErrorKind, desc: &[u8]) -> (r: Response)
    ensures
        is_error_response(r, acao@, kind, desc@),
{
    Response {
        status: kind.code(),
        content_type: application_json(),
        acao: vstd::slice::slice_to_vec(acao),
        body: envelope(kind, desc),
    }
}

/// Builds the health response.
pub fn health_response(acao: &[u8]) -> (r: Response)
    ensures
        is_health_response(r, acao@),
{
    Response {
        status: 200,
        content_type: text_plain(),
        acao: vstd::slice::slice_to_vec(acao),
        body: ok_body(),
    }
}

fn url_object(url: &[u8]) -> (r: Vec<u8>)
    ensures
        r@ == spec_url_object(url@),
{
    let mut out = url_obj_open();
    let esc = json_escape(url);
    push_all(&mut out, esc.as_slice());
    let close = env_close();
    push_all(&mut out, close.as_slice());
    proof {
        assert(out@ =~= spec_url_object(url@));
    }
    out
}

fn join_objects(plans: &[UploadPlan]) -> (r: Vec<u8>)
    ensures
        r@ == spec_join_objects(plans@.map_values(|p: UploadPlan| p.url@)),
    decreases plans@.len(),
{
    let urls = Ghost(plans@.map_values(|p: UploadPlan| p.url@));
    if plans.len() == 0 {
        let v: Vec<u8> = Vec::new();
        proof {
            assert(urls@ =~= Seq::<Seq<u8>>::empty());
        }
        v
    } else if plans.len() == 1 {
        let r = url_object(plans[0].url.as_slice());
        proof {
            assert(urls@[0] == plans@[0].url@);
        }
        r
    } else {
        let mut out = url_object(plans[0].url.as_slice());
        out.push(44);
        let rest = vstd::slice::slice_subrange(plans, 1, plans.len());
        let tail = join_objects(rest);
        push_all(&mut out, tail.as_slice());
        proof {
            assert(rest@.map_values(|p: UploadPlan| p.url@) =~= urls@.subrange(
                1,
                urls@.len() as int,
            ));
            assert(out@ =~= spec_url_object(urls@[0]) + seq![44u8] + spec_join_objects(
                urls@.subrange(1, urls@.len() as int),
            ));
        }
        out
    }
}

/// Renders the success body for the planned uploads' URLs.
pub fn success_body(plans: &[UploadPlan]) -> (r: Vec<u8>)
    ensures
        r@ == spec_success_body(plans@.map_values(|p: UploadPlan| p.url@)),
{
    let urls = Ghost(plans@.map_values(|p: UploadPlan| p.url@));
    if plans.len() == 1 {
        let r = url_object(plans[0].url.as_slice());
        proof {
            assert(urls@[0] == plans@[0].url@);
        }
        r
    } else {
        let mut out: Vec<u8> = vec![91u8];
        let joined = join_objects(plans);
        push_all(&mut out, joined.as_slice());
        out.push(93);
        proof {
            assert(out@ =~= seq![91u8] + spec_join_objects(urls@) + seq![93u8]);
        }
        out
    }
}

/// The parts of the request, as the pipeline sees them: the boundary
/// named by the `Content-Type` header applied to the body.
pub open spec fn spec_request_parts(headers: Seq<Header>, body: Seq<u8>) -> Option<Seq<Seq<u8>>> {
    match spec_header_value(headers, spec_content_type_header_name()) {
        None => None,
        Some(ct) => match spec_boundary_of(ct) {
            None => None,
            Some(b) => spec_parse_multipart(body, b),
        },
    }
}

/// What the upload pipeline owes for an authenticated `POST /images`: a
/// body that does not decompose is a 400 `Parse`; a body with no parts is
/// a 400 `Parse` naming the absence of images; a part that no accepted
/// image format claims is a 400 `Image`; otherwise one upload plan per
/// part, in order.
pub open spec fn images_post(
    acao: Seq<u8>,
    bucket: Seq<u8>,
    headers: Seq<Header>,
    body: Seq<u8>,
    r: RequestPlan,
) -> bool {
    match spec_request_parts(headers, body) {
        None => match r {
            RequestPlan::Respond(resp) => is_error_response(
                resp,
                acao,
                ErrorKind::Parse,
                spec_desc_bad_multipart(),
            ),
            RequestPlan::Upload(_) => false,
        },
        Some(ps) => if ps.len() == 0 {
            match r {
                RequestPlan::Respond(resp) => is_error_response(
                    resp,
                    acao,
                    ErrorKind::Parse,
                    spec_desc_no_images(),
                ),
                RequestPlan::Upload(_) => false,
            }
        } else if exists|i: int| 0 <= i < ps.len() && spec_sniff(#[trigger] ps[i]) is None {
            match r {
                RequestPlan::Respond(resp) => is_error_response(
                    resp,
                    acao,
                    ErrorKind::Image,
                    spec_desc_bad_image(),
                ),
                RequestPlan::Upload(_) => false,
            }
        } else {
            match r {
                RequestPlan::Respond(_) => false,
                RequestPlan::Upload(plans) => plans@.len() == ps.len() && (forall|i: int|
                    0 <= i < ps.len() ==> plan_for_part(#[trigger] plans@[i], ps[i], bucket)),
            }
        },
    }
}

/// What `call` owes for every request: the route table decides; an
/// unmatched route is a 404; the health route answers 200 `ok` whatever
/// else the request holds; the images route first demands a bearer token
/// (a missing one is a 401 naming the missing token), then either the
/// token is rejected with a 401, or the pipeline's obligation holds.
pub open spec fn call_post(
    c: ControllerImpl,
    m: Method,
    path: Seq<u8>,
    headers: Seq<Header>,
    body: Seq<u8>,
    r: RequestPlan,
) -> bool {
    let acao = c.config.acao@;
    match spec_route(m, path) {
        None => match r {
            RequestPlan::Respond(resp) => is_error_response(
                resp,
                acao,
                ErrorKind::NotFound,
                spec_desc_not_found(),
            ),
            RequestPlan::Upload(_) => false,
        },
        Some(Route::Healthcheck) => match r {
            RequestPlan::Respond(resp) => is_health_response(resp, acao),
            RequestPlan::Upload(_) => false,
        },
        Some(Route::Images) => if spec_bearer_token(headers) is None {
            match r {
                RequestPlan::Respond(resp) => is_error_response(
                    resp,
                    acao,
                    ErrorKind::Unauthorized,
                    spec_desc_missing_token(),
                ),
                RequestPlan::Upload(_) => false,
            }
        } else {
            (match r {
                RequestPlan::Respond(resp) => is_error_response(
                    resp,
                    acao,
                    ErrorKind::Unauthorized,
                    spec_desc_bad_token(),
                ),
                RequestPlan::Upload(_) => false,
            }) || images_post(acao, c.config.bucket@, headers, body, r)
        },
    }
}

/// What `finish` owes: a stored upload answers 200 with the URLs in
/// order; a rejection is a 400 `Image`; a store failure is a 500.
pub open spec fn finish_post(
    acao: Seq<u8>,
    urls: Seq<Seq<u8>>,
    outcome: UploadOutcome,
    r: Response,
) -> bool {
    match outcome {
        UploadOutcome::Done => is_success_response(r, acao, urls),
        UploadOutcome::Rejected => is_error_response(
            r,
            acao,
            ErrorKind::Image,
            spec_desc_upload_rejected(),
        ),
        UploadOutcome::Failed => is_error_response(
            r,
            acao,
            ErrorKind::Internal,
            spec_desc_internal(),
        ),
    }
}

/// Controller handles route parsing and drives the upload pipeline.
pub struct ControllerImpl {
    pub config: Config,
    pub jwt_public_key: Vec<u8>,
}

impl ControllerImpl {
    /// Create a new controller from the configuration and the PEM-encoded
    /// RSA public key.
    pub fn new(config: Config, jwt_public_key: Vec<u8>) -> (s: Self)
        ensures
            s.config == config,
            s.jwt_public_key == jwt_public_key,
    {
        ControllerImpl { config, jwt_public_key }
    }

    /// The authenticated upload pipeline: decompose the body, detect each
    /// part's format, and plan one upload per part.
    pub fn images_upload(&self, headers: &Vec<Header>, body: &Vec<u8>) -> (r: RequestPlan)
        ensures
            images_post(self.config.acao@, self.config.bucket@, headers@, body@, r),
    {
        let acao = self.config.acao.as_slice();
        let ctname = content_type_header_name();
        let ctv = match header_value(headers.as_slice(), ctname.as_slice()) {
            None => {
                let d = desc_bad_multipart();
                return RequestPlan::Respond(error_response(acao, ErrorKind::Parse, d.as_slice()));
            },
            Some(v) => v,
        };
        let bnd = match boundary_of(ctv.as_slice()) {
            None => {
                let d = desc_bad_multipart();
                return RequestPlan::Respond(error_response(acao, ErrorKind::Parse, d.as_slice()));
            },
            Some(b) => b,
        };
        let parts = match parse_multipart(body.as_slice(), bnd.as_slice()) {
            None => {
                let d = desc_bad_multipart();
                return RequestPlan::Respond(error_response(acao, ErrorKind::Parse, d.as_slice()));
            },
            Some(ps) => ps,
        };
        let ghost pspec = parts@.map_values(|p: Vec<u8>| p@);
        if parts.len() == 0 {
            let d = desc_no_images();
            return RequestPlan::Respond(error_response(acao, ErrorKind::Parse, d.as_slice()));
        }
        let mut formats: Vec<ImageFormat> = Vec::new();
        let mut i: usize = 0;
        while i < parts.len()
            invariant
                i <= parts@.len(),
                pspec == parts@.map_values(|p: Vec<u8>| p@),
                spec_request_parts(headers@, body@) == Some(pspec),
                pspec.len() > 0,
                acao@ == self.config.acao@,
                formats@.len() == i,
                forall|k: int| 0 <= k < i ==> spec_sniff(parts@[k]@) == Some(#[trigger] formats@[k]),
            decreases parts@.len() - i,
        {
            match sniff_format(parts[i].as_slice()) {
                None => {
                    proof {
                        assert(pspec[i as int] == parts@[i as int]@);
                        assert(0 <= i < pspec.len() && spec_sniff(pspec[i as int]) is None);
                    }
                    let d = desc_bad_image();
                    return RequestPlan::Respond(
                        error_response(acao, ErrorKind::Image, d.as_slice()),
                    );
                },
                Some(f) => {
                    formats.push(f);
                },
            }
            i += 1;
        }
        proof {
            assert forall|k: int| 0 <= k < pspec.len() implies !(spec_sniff(
                #[trigger] pspec[k],
            ) is None) by {
                assert(pspec[k] == parts@[k]@);
                assert(spec_sniff(parts@[k]@) == Some(formats@[k]));
            }
        }
        let mut plans: Vec<UploadPlan> = Vec::new();
        let mut j: usize = 0;
        while j < parts.len()
            invariant
                j <= parts@.len(),
                formats@.len() == parts@.len(),
                forall|k: int| 0 <= k < parts@.len() ==> spec_sniff(parts@[k]@) == Some(
                    #[trigger] formats@[k],
                ),
                plans@.len() == j,
                forall|k: int|
                    0 <= k < j ==> plan_for_part(
                        #[trigger] plans@[k],
                        parts@[k]@,
                        self.config.bucket@,
                    ),
            decreases parts@.len() - j,
        {
            let p = make_plan(parts[j].as_slice(), formats[j], self.config.bucket.as_slice());
            plans.push(p);
            j += 1;
        }
        proof {
            assert forall|k: int| 0 <= k < pspec.len() implies plan_for_part(
                #[trigger] plans@[k],
                pspec[k],
                self.config.bucket@,
            ) by {
                assert(pspec[k] == parts@[k]@);
            }
        }
        RequestPlan::Upload(plans)
    }

    /// Handle a request: route it, verify the token where the route
    /// demands one, and either answer at once or hand back upload plans.
    pub fn call(&self, method: Method, path: &Vec<u8>, headers: &Vec<Header>, body: &Vec<u8>) -> (r:
        RequestPlan)
        ensures
            call_post(*self, method, path@, headers@, body@, r),
    {
        let acao = self.config.acao.as_slice();
        match parse_route(method, path.as_slice()) {
            None => {
                let d = desc_not_found();
                RequestPlan::Respond(error_response(acao, ErrorKind::NotFound, d.as_slice()))
            },
            Some(Route::Healthcheck) => RequestPlan::Respond(health_response(acao)),
            Some(Route::Images) => {
                match verify_token(&self.jwt_public_key, self.config.leeway, headers) {
                    Err(e) => RequestPlan::Respond(
                        error_response(acao, ErrorKind::Unauthorized, e.description.as_slice()),
                    ),
                    Ok(_payload) => self.images_upload(headers, body),
                }
            },
        }
    }

    /// Turn the store's outcome for the planned uploads into the final
    /// response.
    pub fn finish(&self, plans: &Vec<UploadPlan>, outcome: UploadOutcome) -> (r: Response)
        ensures
            finish_post(
                self.config.acao@,
                plans@.map_values(|p: UploadPlan| p.url@),
                outcome,
                r,
            ),
    {
        let acao = self.config.acao.as_slice();
        match outcome {
            UploadOutcome::Done => {
                let body = success_body(plans.as_slice());
                Response {
                    status: 200,
                    content_type: application_json(),
                    acao: vstd::slice::slice_to_vec(acao),
                    body,
                }
            },
            UploadOutcome::Rejected => {
                let d = desc_upload_rejected();
                error_response(acao, ErrorKind::Image, d.as_slice())
            },
            UploadOutcome::Failed => {
                let d = desc_internal();
                error_response(acao, ErrorKind::Internal, d.as_slice())
            },
        }
    }
}

} // verus!
