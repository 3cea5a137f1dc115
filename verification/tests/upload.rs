//! The upload pipeline: multipart decomposition, format detection, plans,
//! and the final response shapes.

use std::collections::HashMap;

use statics_lib::auth::Header;
use statics_lib::controller::{Config, ControllerImpl, RequestPlan, UploadOutcome};
use statics_lib::s3::UploadPlan;

const PNG: &[u8] = &[0x89, b'P', b'N', b'G', 0x0D, 0x0A, 0x1A, 0x0A, 1, 2, 3];
const JPEG: &[u8] = &[0xFF, 0xD8, 0xFF, 0xE0, 9, 9];
const GIF: &[u8] = b"GIF89a_rest_of_a_gif";

fn controller() -> ControllerImpl {
    let config = Config {
        acao: b"*".to_vec(),
        bucket: b"test-bucket".to_vec(),
        leeway: 60,
    };
    ControllerImpl::new(config, b"unused".to_vec())
}

fn multipart_headers(boundary: &str) -> Vec<Header> {
    vec![Header {
        name: b"Content-Type".to_vec(),
        value: format!("multipart/form-data; boundary={}", boundary).into_bytes(),
    }]
}

fn multipart_body(boundary: &str, parts: &[&[u8]]) -> Vec<u8> {
    let mut body = Vec::new();
    body.extend_from_slice(b"--");
    body.extend_from_slice(boundary.as_bytes());
    if parts.is_empty() {
        body.extend_from_slice(b"--\r\n");
        return body;
    }
    for part in parts {
        body.extend_from_slice(b"\r\n");
        body.extend_from_slice(b"Content-Disposition: form-data; name=\"file\"\r\n\r\n");
        body.extend_from_slice(part);
        body.extend_from_slice(b"\r\n--");
        body.extend_from_slice(boundary.as_bytes());
    }
    body.extend_from_slice(b"--\r\n");
    body
}

fn upload_plans(c: &ControllerImpl, boundary: &str, parts: &[&[u8]]) -> Vec<UploadPlan> {
    let headers = multipart_headers(boundary);
    let body = multipart_body(boundary, parts);
    match c.images_upload(&headers, &body) {
        RequestPlan::Upload(plans) => plans,
        RequestPlan::Respond(resp) => panic!(
            "expected upload plans, got status {} body {}",
            resp.status,
            String::from_utf8_lossy(&resp.body)
        ),
    }
}

#[test]
fn single_png_uploaded() {
    let c = controller();
    let plans = upload_plans(&c, "XBOUNDARYX", &[PNG]);
    assert_eq!(plans.len(), 1);
    let p = &plans[0];
    assert_eq!(p.bytes, PNG.to_vec());
    assert_eq!(p.content_type, b"image/png".to_vec());
    assert!(p.key.starts_with(b"img-"));
    assert!(p.key.ends_with(b".png"));
    assert_eq!(p.key.len(), 4 + 12 + 4);
    let mut expected_url = b"https://s3.amazonaws.com/test-bucket/".to_vec();
    expected_url.extend_from_slice(&p.key);
    assert_eq!(p.url, expected_url);
}

#[test]
fn single_png_response_is_object() {
    let c = controller();
    let plans = upload_plans(&c, "b1", &[PNG]);
    let resp = c.finish(&plans, UploadOutcome::Done);
    assert_eq!(resp.status, 200);
    assert_eq!(resp.content_type, b"application/json".to_vec());
    assert_eq!(resp.acao, b"*".to_vec());
    let mut expected = b"{\"url\":\"".to_vec();
    expected.extend_from_slice(&plans[0].url);
    expected.extend_from_slice(b"\"}");
    assert_eq!(resp.body, expected);
    let v: serde_json::Value = serde_json::from_slice(&resp.body).unwrap();
    assert!(v.is_object());
    assert_eq!(
        v.get("url").unwrap().as_str().unwrap().as_bytes(),
        plans[0].url.as_slice()
    );
}

#[test]
fn two_jpegs_response_is_array() {
    let c = controller();
    let plans = upload_plans(&c, "b2", &[JPEG, JPEG]);
    assert_eq!(plans.len(), 2);
    assert_eq!(plans[0].content_type, b"image/jpeg".to_vec());
    assert_eq!(plans[1].content_type, b"image/jpeg".to_vec());
    assert!(plans[0].key.ends_with(b".jpg"));
    assert_ne!(plans[0].key, plans[1].key);
    assert_ne!(plans[0].url, plans[1].url);
    let resp = c.finish(&plans, UploadOutcome::Done);
    assert_eq!(resp.status, 200);
    let v: serde_json::Value = serde_json::from_slice(&resp.body).unwrap();
    let arr = v.as_array().expect("two parts must give an array");
    assert_eq!(arr.len(), 2);
    assert_eq!(
        arr[0].get("url").unwrap().as_str().unwrap().as_bytes(),
        plans[0].url.as_slice()
    );
    assert_eq!(
        arr[1].get("url").unwrap().as_str().unwrap().as_bytes(),
        plans[1].url.as_slice()
    );
}

#[test]
fn same_bytes_twice_distinct_urls() {
    let c = controller();
    let plans = upload_plans(&c, "b3", &[PNG, PNG]);
    assert_eq!(plans.len(), 2);
    assert_ne!(plans[0].key, plans[1].key);
    assert_ne!(plans[0].url, plans[1].url);
    assert_eq!(plans[0].bytes, plans[1].bytes);
}

#[test]
fn mocked_store_roundtrip() {
    let c = controller();
    let parts: [&[u8]; 3] = [PNG, JPEG, GIF];
    let plans = upload_plans(&c, "b4", &parts);
    let mut store: HashMap<Vec<u8>, Vec<u8>> = HashMap::new();
    for p in &plans {
        store.insert(p.url.clone(), p.bytes.clone());
    }
    assert_eq!(store.len(), 3);
    for (i, part) in parts.iter().enumerate() {
        let fetched = store.get(&plans[i].url).expect("url must dereference");
        assert_eq!(fetched.as_slice(), *part);
    }
}

#[test]
fn detected_formats_and_extensions() {
    let c = controller();
    let webp: Vec<u8> = {
        let mut v = b"RIFF".to_vec();
        v.extend_from_slice(&[0, 0, 0, 0]);
        v.extend_from_slice(b"WEBPmore");
        v
    };
    let bmp: &[u8] = b"BMxxxx";
    let tiff: &[u8] = &[0x49, 0x49, 0x2A, 0x00, 5];
    let ico: &[u8] = &[0, 0, 1, 0, 1, 0];
    let parts: [&[u8]; 5] = [GIF, &webp, bmp, tiff, ico];
    let plans = upload_plans(&c, "b5", &parts);
    let expect: [(&[u8], &[u8]); 5] = [
        (b"image/gif", b".gif"),
        (b"image/webp", b".webp"),
        (b"image/bmp", b".bmp"),
        (b"image/tiff", b".tiff"),
        (b"image/x-icon", b".ico"),
    ];
    for (p, (mime, ext)) in plans.iter().zip(expect.iter()) {
        assert_eq!(p.content_type.as_slice(), *mime);
        assert!(p.key.ends_with(ext));
    }
}

#[test]
fn unrecognized_part_rejected() {
    let c = controller();
    let headers = multipart_headers("b6");
    let body = multipart_body("b6", &[b"hello world"]);
    match c.images_upload(&headers, &body) {
        RequestPlan::Respond(resp) => {
            assert_eq!(resp.status, 400);
            assert_eq!(
                resp.body,
                b"{\"code\":400,\"description\":\"Invalid image format\"}".to_vec()
            );
        },
        RequestPlan::Upload(_) => panic!("junk bytes must not be uploaded"),
    }
}

#[test]
fn one_bad_part_fails_whole_request() {
    let c = controller();
    let headers = multipart_headers("b7");
    let body = multipart_body("b7", &[PNG, b"not an image"]);
    match c.images_upload(&headers, &body) {
        RequestPlan::Respond(resp) => assert_eq!(resp.status, 400),
        RequestPlan::Upload(_) => panic!("a bad part must fail the whole request"),
    }
}

#[test]
fn zero_parts_rejected() {
    let c = controller();
    let headers = multipart_headers("b8");
    let body = multipart_body("b8", &[]);
    match c.images_upload(&headers, &body) {
        RequestPlan::Respond(resp) => {
            assert_eq!(resp.status, 400);
            assert_eq!(
                resp.body,
                b"{\"code\":400,\"description\":\"No images were sent\"}".to_vec()
            );
        },
        RequestPlan::Upload(_) => panic!("an empty upload must fail"),
    }
}

#[test]
fn garbage_body_rejected() {
    let c = controller();
    let headers = multipart_headers("b9");
    match c.images_upload(&headers, &b"this is not multipart at all".to_vec()) {
        RequestPlan::Respond(resp) => {
            assert_eq!(resp.status, 400);
            assert_eq!(
                resp.body,
                b"{\"code\":400,\"description\":\"Couldn't convert request body to multipart\"}"
                    .to_vec()
            );
        },
        RequestPlan::Upload(_) => panic!("a garbage body must fail"),
    }
}

#[test]
fn missing_content_type_rejected() {
    let c = controller();
    let body = multipart_body("b10", &[PNG]);
    match c.images_upload(&Vec::new(), &body) {
        RequestPlan::Respond(resp) => assert_eq!(resp.status, 400),
        RequestPlan::Upload(_) => panic!("a body without a boundary must fail"),
    }
}

#[test]
fn quoted_boundary_accepted() {
    let c = controller();
    let headers = vec![Header {
        name: b"content-type".to_vec(),
        value: b"multipart/form-data; boundary=\"q11\"".to_vec(),
    }];
    let body = multipart_body("q11", &[PNG]);
    match c.images_upload(&headers, &body) {
        RequestPlan::Upload(plans) => assert_eq!(plans.len(), 1),
        RequestPlan::Respond(resp) => panic!("quoted boundary must parse, got {}", resp.status),
    }
}

#[test]
fn store_rejection_maps_to_image_error() {
    let c = controller();
    let plans = upload_plans(&c, "b12", &[PNG]);
    let resp = c.finish(&plans, UploadOutcome::Rejected);
    assert_eq!(resp.status, 400);
    assert_eq!(
        resp.body,
        b"{\"code\":400,\"description\":\"Failed to upload image\"}".to_vec()
    );
}

#[test]
fn store_failure_maps_to_internal_error() {
    let c = controller();
    let plans = upload_plans(&c, "b13", &[PNG]);
    let resp = c.finish(&plans, UploadOutcome::Failed);
    assert_eq!(resp.status, 500);
    assert_eq!(
        resp.body,
        b"{\"code\":500,\"description\":\"Internal server error\"}".to_vec()
    );
    assert_eq!(resp.acao, b"*".to_vec());
}

#[test]
fn boundary_followed_by_another_parameter() {
    let c = controller();
    let headers = vec![Header {
        name: b"content-type".to_vec(),
        value: b"multipart/form-data; boundary=b14; charset=utf-8".to_vec(),
    }];
    let body = multipart_body("b14", &[PNG]);
    match c.images_upload(&headers, &body) {
        RequestPlan::Upload(plans) => assert_eq!(plans.len(), 1),
        RequestPlan::Respond(resp) => panic!("boundary must parse, got {}", resp.status),
    }
}

#[test]
fn part_data_may_contain_line_breaks() {
    let c = controller();
    let mut png_with_breaks = PNG.to_vec();
    png_with_breaks.extend_from_slice(b"\r\nmore\r\nlines");
    let parts: [&[u8]; 1] = [&png_with_breaks];
    let plans = upload_plans(&c, "b15", &parts);
    assert_eq!(plans[0].bytes, png_with_breaks);
}
