//! Verified core of a small static-asset upload service: request routing,
//! bearer-token handling, multipart decomposition, image-format detection,
//! object-key assignment and response assembly.

pub mod auth;
pub mod bytes_util;
pub mod controller;
pub mod errors;
pub mod http;
pub mod images;
pub mod laws;
pub mod multipart;
pub mod routes;
pub mod s3;
pub mod text;
