//! Token verification against real RS256 tokens, signed with a key pair
//! generated on the spot.

use std::time::{SystemTime, UNIX_EPOCH};

use rsa::pkcs1::{EncodeRsaPrivateKey, EncodeRsaPublicKey, LineEnding};
use statics_lib::auth::{verify_token, Header};
use statics_lib::controller::{Config, ControllerImpl, RequestPlan};
use statics_lib::routes::Method;

fn keypair() -> (String, String) {
    let mut rng = rsa::rand_core::OsRng;
    let private = rsa::RsaPrivateKey::new(&mut rng, 1024).expect("key generation");
    let private_pem = private.to_pkcs1_pem(LineEnding::LF).expect("private pem").to_string();
    let public_pem = private.to_public_key().to_pkcs1_pem(LineEnding::LF).expect("public pem");
    (private_pem, public_pem)
}

fn now() -> i64 {
    SystemTime::now().duration_since(UNIX_EPOCH).unwrap().as_secs() as i64
}

fn make_token(private_pem: &str, user_id: i64, exp: i64) -> String {
    let claims: serde_json::Value =
        serde_json::from_str(&format!("{{\"user_id\":{},\"exp\":{}}}", user_id, exp)).unwrap();
    let key = jsonwebtoken::EncodingKey::from_rsa_pem(private_pem.as_bytes()).expect("signing key");
    let header = jsonwebtoken::Header::new(jsonwebtoken::Algorithm::RS256);
    jsonwebtoken::encode(&header, &claims, &key).expect("token")
}

fn bearer_headers(token: &str) -> Vec<Header> {
    vec![Header {
        name: b"Authorization".to_vec(),
        value: format!("Bearer {}", token).into_bytes(),
    }]
}

#[test]
fn valid_token_accepted() {
    let (private_pem, public_pem) = keypair();
    let token = make_token(&private_pem, 7, now() + 300);
    let headers = bearer_headers(&token);
    let payload = verify_token(&public_pem.into_bytes(), 60, &headers).expect("valid token");
    assert_eq!(payload.user_id, 7);
}

#[test]
fn expired_within_leeway_accepted() {
    let (private_pem, public_pem) = keypair();
    let token = make_token(&private_pem, 1, now() - 30);
    let headers = bearer_headers(&token);
    assert!(verify_token(&public_pem.into_bytes(), 300, &headers).is_ok());
}

#[test]
fn expired_outside_leeway_rejected() {
    let (private_pem, public_pem) = keypair();
    let token = make_token(&private_pem, 1, now() - 400);
    let headers = bearer_headers(&token);
    let err = verify_token(&public_pem.into_bytes(), 30, &headers).unwrap_err();
    assert_eq!(err.description, b"Failed to parse JWT token".to_vec());
}

#[test]
fn wrong_key_rejected() {
    let (private_pem, _) = keypair();
    let (_, other_public_pem) = keypair();
    let token = make_token(&private_pem, 1, now() + 300);
    let headers = bearer_headers(&token);
    assert!(verify_token(&other_public_pem.into_bytes(), 60, &headers).is_err());
}

#[test]
fn non_rs256_rejected() {
    let (_, public_pem) = keypair();
    let claims: serde_json::Value =
        serde_json::from_str(&format!("{{\"user_id\":1,\"exp\":{}}}", now() + 300)).unwrap();
    let header = jsonwebtoken::Header::new(jsonwebtoken::Algorithm::HS256);
    let key = jsonwebtoken::EncodingKey::from_secret(b"shared secret");
    let token = jsonwebtoken::encode(&header, &claims, &key).expect("hs256 token");
    let headers = bearer_headers(&token);
    let err = verify_token(&public_pem.into_bytes(), 60, &headers).unwrap_err();
    assert_eq!(err.description, b"Failed to parse JWT token".to_vec());
}

#[test]
fn authenticated_upload_through_call() {
    let (private_pem, public_pem) = keypair();
    let config = Config {
        acao: b"https://example.com".to_vec(),
        bucket: b"test-bucket".to_vec(),
        leeway: 60,
    };
    let c = ControllerImpl::new(config, public_pem.into_bytes());
    let token = make_token(&private_pem, 42, now() + 300);
    let png: &[u8] = &[0x89, b'P', b'N', b'G', 0x0D, 0x0A, 0x1A, 0x0A, 0];
    let mut headers = bearer_headers(&token);
    headers.push(Header {
        name: b"Content-Type".to_vec(),
        value: b"multipart/form-data; boundary=zz".to_vec(),
    });
    let mut body = b"--zz\r\nContent-Disposition: form-data; name=\"f\"\r\n\r\n".to_vec();
    body.extend_from_slice(png);
    body.extend_from_slice(b"\r\n--zz--\r\n");
    match c.call(Method::Post, &b"/images".to_vec(), &headers, &body) {
        RequestPlan::Upload(plans) => {
            assert_eq!(plans.len(), 1);
            assert_eq!(plans[0].bytes, png.to_vec());
            assert_eq!(plans[0].content_type, b"image/png".to_vec());
        },
        RequestPlan::Respond(resp) => panic!(
            "expected an upload, got status {} body {}",
            resp.status,
            String::from_utf8_lossy(&resp.body)
        ),
    }
}

#[test]
fn token_without_user_id_rejected() {
    let (private_pem, public_pem) = keypair();
    let claims: serde_json::Value =
        serde_json::from_str(&format!("{{\"exp\":{}}}", now() + 300)).unwrap();
    let key = jsonwebtoken::EncodingKey::from_rsa_pem(private_pem.as_bytes()).unwrap();
    let header = jsonwebtoken::Header::new(jsonwebtoken::Algorithm::RS256);
    let token = jsonwebtoken::encode(&header, &claims, &key).unwrap();
    let headers = bearer_headers(&token);
    assert!(verify_token(&public_pem.into_bytes(), 60, &headers).is_err());
}
