//! ASCII byte constants shared by the routing, authentication and
//! response-assembly code, each as a spec sequence with a matching
//! executable constructor.

use vstd::prelude::*;

verus! {

/// The bytes of `/healthcheck`.
pub open spec fn spec_health_path() -> Seq<u8> {
    seq![47u8, 104u8, 101u8, 97u8, 108u8, 116u8, 104u8, 99u8, 104u8, 101u8, 99u8, 107u8]
}

pub fn health_path() -> (r: Vec<u8>)
    ensures
        r@ == spec_health_path(),
{
    let v: Vec<u8> = vec![47u8, 104u8, 101u8, 97u8, 108u8, 116u8, 104u8, 99u8, 104u8, 101u8, 99u8, 107u8];
    proof {
        assert(v@ =~= spec_health_path());
    }
    v
}

/// The bytes of `/images`.
pub open spec fn spec_images_path() -> Seq<u8> {
    seq![47u8, 105u8, 109u8, 97u8, 103u8, 101u8, 115u8]
}

pub fn images_path() -> (r: Vec<u8>)
    ensures
        r@ == spec_images_path(),
{
    let v: Vec<u8> = vec![47u8, 105u8, 109u8, 97u8, 103u8, 101u8, 115u8];
    proof {
        assert(v@ =~= spec_images_path());
    }
    v
}

/// The bytes of `authorization`.
pub open spec fn spec_auth_header_name() -> Seq<u8> {
    seq![97u8, 117u8, 116u8, 104u8, 111u8, 114u8, 105u8, 122u8, 97u8, 116u8, 105u8, 111u8, 110u8]
}

pub fn auth_header_name() -> (r: Vec<u8>)
    ensures
        r@ == spec_auth_header_name(),
{
    let v: Vec<u8> = vec![97u8, 117u8, 116u8, 104u8, 111u8, 114u8, 105u8, 122u8, 97u8, 116u8, 105u8, 111u8, 110u8];
    proof {
        assert(v@ =~= spec_auth_header_name());
    }
    v
}

/// The bytes of `content-type`.
pub open spec fn spec_content_type_header_name() -> Seq<u8> {
    seq![99u8, 111u8, 110u8, 116u8, 101u8, 110u8, 116u8, 45u8, 116u8, 121u8, 112u8, 101u8]
}

pub fn content_type_header_name() -> (r: Vec<u8>)
    ensures
        r@ == spec_content_type_header_name(),
{
    let v: Vec<u8> = vec![99u8, 111u8, 110u8, 116u8, 101u8, 110u8, 116u8, 45u8, 116u8, 121u8, 112u8, 101u8];
    proof {
        assert(v@ =~= spec_content_type_header_name());
    }
    v
}

/// The bytes of `Bearer `.
pub open spec fn spec_bearer_prefix() -> Seq<u8> {
    seq![66u8, 101u8, 97u8, 114u8, 101u8, 114u8, 32u8]
}

pub fn bearer_prefix() -> (r: Vec<u8>)
    ensures
        r@ == spec_bearer_prefix(),
{
    let v: Vec<u8> = vec![66u8, 101u8, 97u8, 114u8, 101u8, 114u8, 32u8];
    proof {
        assert(v@ =~= spec_bearer_prefix());
    }
    v
}

/// The bytes of `boundary=`.
pub open spec fn spec_boundary_param() -> Seq<u8> {
    seq![98u8, 111u8, 117u8, 110u8, 100u8, 97u8, 114u8, 121u8, 61u8]
}

pub fn boundary_param() -> (r: Vec<u8>)
    ensures
        r@ == spec_boundary_param(),
{
    let v: Vec<u8> = vec![98u8, 111u8, 117u8, 110u8, 100u8, 97u8, 114u8, 121u8, 61u8];
    proof {
        assert(v@ =~= spec_boundary_param());
    }
    v
}

/// The bytes of `ok`.
pub open spec fn spec_ok_body() -> Seq<u8> {
    seq![111u8, 107u8]
}

pub fn ok_body() -> (r: Vec<u8>)
    ensures
        r@ == spec_ok_body(),
{
    let v: Vec<u8> = vec![111u8, 107u8];
    proof {
        assert(v@ =~= spec_ok_body());
    }
    v
}

/// The bytes of `text/plain`.
pub open spec fn spec_text_plain() -> Seq<u8> {
    seq![116u8, 101u8, 120u8, 116u8, 47u8, 112u8, 108u8, 97u8, 105u8, 110u8]
}

pub fn text_plain() -> (r: Vec<u8>)
    ensures
        r@ == spec_text_plain(),
{
    let v: Vec<u8> = vec![116u8, 101u8, 120u8, 116u8, 47u8, 112u8, 108u8, 97u8, 105u8, 110u8];
    proof {
        assert(v@ =~= spec_text_plain());
    }
    v
}

/// The bytes of `application/json`.
pub open spec fn spec_application_json() -> Seq<u8> {
    seq![97u8, 112u8, 112u8, 108u8, 105u8, 99u8, 97u8, 116u8, 105u8, 111u8, 110u8, 47u8, 106u8, 115u8, 111u8, 110u8]
}

pub fn application_json() -> (r: Vec<u8>)
    ensures
        r@ == spec_application_json(),
{
    let v: Vec<u8> = vec![97u8, 112u8, 112u8, 108u8, 105u8, 99u8, 97u8, 116u8, 105u8, 111u8, 110u8, 47u8, 106u8, 115u8, 111u8, 110u8];
    proof {
        assert(v@ =~= spec_application_json());
    }
    v
}

/// The bytes of `img-`.
pub open spec fn spec_key_prefix() -> Seq<u8> {
    seq![105u8, 109u8, 103u8, 45u8]
}

pub fn key_prefix() -> (r: Vec<u8>)
    ensures
        r@ == spec_key_prefix(),
{
    let v: Vec<u8> = vec![105u8, 109u8, 103u8, 45u8];
    proof {
        assert(v@ =~= spec_key_prefix());
    }
    v
}

/// The bytes of `https://s3.amazonaws.com/`.
pub open spec fn spec_url_base() -> Seq<u8> {
    seq![104u8, 116u8, 116u8, 112u8, 115u8, 58u8, 47u8, 47u8, 115u8, 51u8, 46u8, 97u8, 109u8, 97u8, 122u8, 111u8, 110u8, 97u8, 119u8, 115u8, 46u8, 99u8, 111u8, 109u8, 47u8]
}

pub fn url_base() -> (r: Vec<u8>)
    ensures
        r@ == spec_url_base(),
{
    let v: Vec<u8> = vec![104u8, 116u8, 116u8, 112u8, 115u8, 58u8, 47u8, 47u8, 115u8, 51u8, 46u8, 97u8, 109u8, 97u8, 122u8, 111u8, 110u8, 97u8, 119u8, 115u8, 46u8, 99u8, 111u8, 109u8, 47u8];
    proof {
        assert(v@ =~= spec_url_base());
    }
    v
}

/// The bytes of `png`.
pub open spec fn spec_ext_png() -> Seq<u8> {
    seq![112u8, 110u8, 103u8]
}

pub fn ext_png() -> (r: Vec<u8>)
    ensures
        r@ == spec_ext_png(),
{
    let v: Vec<u8> = vec![112u8, 110u8, 103u8];
    proof {
        assert(v@ =~= spec_ext_png());
    }
    v
}

/// The bytes of `jpg`.
pub open spec fn spec_ext_jpg() -> Seq<u8> {
    seq![106u8, 112u8, 103u8]
}

pub fn ext_jpg() -> (r: Vec<u8>)
    ensures
        r@ == spec_ext_jpg(),
{
    let v: Vec<u8> = vec![106u8, 112u8, 103u8];
    proof {
        assert(v@ =~= spec_ext_jpg());
    }
    v
}

/// The bytes of `gif`.
pub open spec fn spec_ext_gif() -> Seq<u8> {
    seq![103u8, 105u8, 102u8]
}

pub fn ext_gif() -> (r: Vec<u8>)
    ensures
        r@ == spec_ext_gif(),
{
    let v: Vec<u8> = vec![103u8, 105u8, 102u8];
    proof {
        assert(v@ =~= spec_ext_gif());
    }
    v
}

/// The bytes of `webp`.
pub open spec fn spec_ext_webp() -> Seq<u8> {
    seq![119u8, 101u8, 98u8, 112u8]
}

pub fn ext_webp() -> (r: Vec<u8>)
    ensures
        r@ == spec_ext_webp(),
{
    let v: Vec<u8> = vec![119u8, 101u8, 98u8, 112u8];
    proof {
        assert(v@ =~= spec_ext_webp());
    }
    v
}

/// The bytes of `bmp`.
pub open spec fn spec_ext_bmp() -> Seq<u8> {
    seq![98u8, 109u8, 112u8]
}

pub fn ext_bmp() -> (r: Vec<u8>)
    ensures
        r@ == spec_ext_bmp(),
{
    let v: Vec<u8> = vec![98u8, 109u8, 112u8];
    proof {
        assert(v@ =~= spec_ext_bmp());
    }
    v
}

/// The bytes of `tiff`.
pub open spec fn spec_ext_tiff() -> Seq<u8> {
    seq![116u8, 105u8, 102u8, 102u8]
}

pub fn ext_tiff() -> (r: Vec<u8>)
    ensures
        r@ == spec_ext_tiff(),
{
    let v: Vec<u8> = vec![116u8, 105u8, 102u8, 102u8];
    proof {
        assert(v@ =~= spec_ext_tiff());
    }
    v
}

/// The bytes of `ico`.
pub open spec fn spec_ext_ico() -> Seq<u8> {
    seq![105u8, 99u8, 111u8]
}

pub fn ext_ico() -> (r: Vec<u8>)
    ensures
        r@ == spec_ext_ico(),
{
    let v: Vec<u8> = vec![105u8, 99u8, 111u8];
    proof {
        assert(v@ =~= spec_ext_ico());
    }
    v
}

/// The bytes of `image/png`.
pub open spec fn spec_mime_png() -> Seq<u8> {
    seq![105u8, 109u8, 97u8, 103u8, 101u8, 47u8, 112u8, 110u8, 103u8]
}

pub fn mime_png() -> (r: Vec<u8>)
    ensures
        r@ == spec_mime_png(),
{
    let v: Vec<u8> = vec![105u8, 109u8, 97u8, 103u8, 101u8, 47u8, 112u8, 110u8, 103u8];
    proof {
        assert(v@ =~= spec_mime_png());
    }
    v
}

/// The bytes of `image/jpeg`.
pub open spec fn spec_mime_jpeg() -> Seq<u8> {
    seq![105u8, 109u8, 97u8, 103u8, 101u8, 47u8, 106u8, 112u8, 101u8, 103u8]
}

pub fn mime_jpeg() -> (r: Vec<u8>)
    ensures
        r@ == spec_mime_jpeg(),
{
    let v: Vec<u8> = vec![105u8, 109u8, 97u8, 103u8, 101u8, 47u8, 106u8, 112u8, 101u8, 103u8];
    proof {
        assert(v@ =~= spec_mime_jpeg());
    }
    v
}

/// The bytes of `image/gif`.
pub open spec fn spec_mime_gif() -> Seq<u8> {
    seq![105u8, 109u8, 97u8, 103u8, 101u8, 47u8, 103u8, 105u8, 102u8]
}

pub fn mime_gif() -> (r: Vec<u8>)
    ensures
        r@ == spec_mime_gif(),
{
    let v: Vec<u8> = vec![105u8, 109u8, 97u8, 103u8, 101u8, 47u8, 103u8, 105u8, 102u8];
    proof {
        assert(v@ =~= spec_mime_gif());
    }
    v
}

/// The bytes of `image/webp`.
pub open spec fn spec_mime_webp() -> Seq<u8> {
    seq![105u8, 109u8, 97u8, 103u8, 101u8, 47u8, 119u8, 101u8, 98u8, 112u8]
}

pub fn mime_webp() -> (r: Vec<u8>)
    ensures
        r@ == spec_mime_webp(),
{
    let v: Vec<u8> = vec![105u8, 109u8, 97u8, 103u8, 101u8, 47u8, 119u8, 101u8, 98u8, 112u8];
    proof {
        assert(v@ =~= spec_mime_webp());
    }
    v
}

/// The bytes of `image/bmp`.
pub open spec fn spec_mime_bmp() -> Seq<u8> {
    seq![105u8, 109u8, 97u8, 103u8, 101u8, 47u8, 98u8, 109u8, 112u8]
}

pub fn mime_bmp() -> (r: Vec<u8>)
    ensures
        r@ == spec_mime_bmp(),
{
    let v: Vec<u8> = vec![105u8, 109u8, 97u8, 103u8, 101u8, 47u8, 98u8, 109u8, 112u8];
    proof {
        assert(v@ =~= spec_mime_bmp());
    }
    v
}

/// The bytes of `image/tiff`.
pub open spec fn spec_mime_tiff() -> Seq<u8> {
    seq![105u8, 109u8, 97u8, 103u8, 101u8, 47u8, 116u8, 105u8, 102u8, 102u8]
}

pub fn mime_tiff() -> (r: Vec<u8>)
    ensures
        r@ == spec_mime_tiff(),
{
    let v: Vec<u8> = vec![105u8, 109u8, 97u8, 103u8, 101u8, 47u8, 116u8, 105u8, 102u8, 102u8];
    proof {
        assert(v@ =~= spec_mime_tiff());
    }
    v
}

/// The bytes of `image/x-icon`.
pub open spec fn spec_mime_ico() -> Seq<u8> {
    seq![105u8, 109u8, 97u8, 103u8, 101u8, 47u8, 120u8, 45u8, 105u8, 99u8, 111u8, 110u8]
}

pub fn mime_ico() -> (r: Vec<u8>)
    ensures
        r@ == spec_mime_ico(),
{
    let v: Vec<u8> = vec![105u8, 109u8, 97u8, 103u8, 101u8, 47u8, 120u8, 45u8, 105u8, 99u8, 111u8, 110u8];
    proof {
        assert(v@ =~= spec_mime_ico());
    }
    v
}

/// The bytes of `{"code":`.
pub open spec fn spec_env_open() -> Seq<u8> {
    seq![123u8, 34u8, 99u8, 111u8, 100u8, 101u8, 34u8, 58u8]
}

pub fn env_open() -> (r: Vec<u8>)
    ensures
        r@ == spec_env_open(),
{
    let v: Vec<u8> = vec![123u8, 34u8, 99u8, 111u8, 100u8, 101u8, 34u8, 58u8];
    proof {
        assert(v@ =~= spec_env_open());
    }
    v
}

/// The bytes of `,"description":"`.
pub open spec fn spec_env_mid() -> Seq<u8> {
    seq![44u8, 34u8, 100u8, 101u8, 115u8, 99u8, 114u8, 105u8, 112u8, 116u8, 105u8, 111u8, 110u8, 34u8, 58u8, 34u8]
}

pub fn env_mid() -> (r: Vec<u8>)
    ensures
        r@ == spec_env_mid(),
{
    let v: Vec<u8> = vec![44u8, 34u8, 100u8, 101u8, 115u8, 99u8, 114u8, 105u8, 112u8, 116u8, 105u8, 111u8, 110u8, 34u8, 58u8, 34u8];
    proof {
        assert(v@ =~= spec_env_mid());
    }
    v
}

/// The bytes of `"}`.
pub open spec fn spec_env_close() -> Seq<u8> {
    seq![34u8, 125u8]
}

pub fn env_close() -> (r: Vec<u8>)
    ensures
        r@ == spec_env_close(),
{
    let v: Vec<u8> = vec![34u8, 125u8];
    proof {
        assert(v@ =~= spec_env_close());
    }
    v
}

/// The bytes of `{"url":"`.
pub open spec fn spec_url_obj_open() -> Seq<u8> {
    seq![123u8, 34u8, 117u8, 114u8, 108u8, 34u8, 58u8, 34u8]
}

pub fn url_obj_open() -> (r: Vec<u8>)
    ensures
        r@ == spec_url_obj_open(),
{
    let v: Vec<u8> = vec![123u8, 34u8, 117u8, 114u8, 108u8, 34u8, 58u8, 34u8];
    proof {
        assert(v@ =~= spec_url_obj_open());
    }
    v
}

/// The bytes of `Missing token`.
pub open spec fn spec_desc_missing_token() -> Seq<u8> {
    seq![77u8, 105u8, 115u8, 115u8, 105u8, 110u8, 103u8, 32u8, 116u8, 111u8, 107u8, 101u8, 110u8]
}

pub fn desc_missing_token() -> (r: Vec<u8>)
    ensures
        r@ == spec_desc_missing_token(),
{
    let v: Vec<u8> = vec![77u8, 105u8, 115u8, 115u8, 105u8, 110u8, 103u8, 32u8, 116u8, 111u8, 107u8, 101u8, 110u8];
    proof {
        assert(v@ =~= spec_desc_missing_token());
    }
    v
}

/// The bytes of `Failed to parse JWT token`.
pub open spec fn spec_desc_bad_token() -> Seq<u8> {
    seq![70u8, 97u8, 105u8, 108u8, 101u8, 100u8, 32u8, 116u8, 111u8, 32u8, 112u8, 97u8, 114u8, 115u8, 101u8, 32u8, 74u8, 87u8, 84u8, 32u8, 116u8, 111u8, 107u8, 101u8, 110u8]
}

pub fn desc_bad_token() -> (r: Vec<u8>)
    ensures
        r@ == spec_desc_bad_token(),
{
    let v: Vec<u8> = vec![70u8, 97u8, 105u8, 108u8, 101u8, 100u8, 32u8, 116u8, 111u8, 32u8, 112u8, 97u8, 114u8, 115u8, 101u8, 32u8, 74u8, 87u8, 84u8, 32u8, 116u8, 111u8, 107u8, 101u8, 110u8];
    proof {
        assert(v@ =~= spec_desc_bad_token());
    }
    v
}

/// The bytes of `Couldn't convert request body to multipart`.
pub open spec fn spec_desc_bad_multipart() -> Seq<u8> {
    seq![67u8, 111u8, 117u8, 108u8, 100u8, 110u8, 39u8, 116u8, 32u8, 99u8, 111u8, 110u8, 118u8, 101u8, 114u8, 116u8, 32u8, 114u8, 101u8, 113u8, 117u8, 101u8, 115u8, 116u8, 32u8, 98u8, 111u8, 100u8, 121u8, 32u8, 116u8, 111u8, 32u8, 109u8, 117u8, 108u8, 116u8, 105u8, 112u8, 97u8, 114u8, 116u8]
}

pub fn desc_bad_multipart() -> (r: Vec<u8>)
    ensures
        r@ == spec_desc_bad_multipart(),
{
    let v: Vec<u8> = vec![67u8, 111u8, 117u8, 108u8, 100u8, 110u8, 39u8, 116u8, 32u8, 99u8, 111u8, 110u8, 118u8, 101u8, 114u8, 116u8, 32u8, 114u8, 101u8, 113u8, 117u8, 101u8, 115u8, 116u8, 32u8, 98u8, 111u8, 100u8, 121u8, 32u8, 116u8, 111u8, 32u8, 109u8, 117u8, 108u8, 116u8, 105u8, 112u8, 97u8, 114u8, 116u8];
    proof {
        assert(v@ =~= spec_desc_bad_multipart());
    }
    v
}

/// The bytes of `No images were sent`.
pub open spec fn spec_desc_no_images() -> Seq<u8> {
    seq![78u8, 111u8, 32u8, 105u8, 109u8, 97u8, 103u8, 101u8, 115u8, 32u8, 119u8, 101u8, 114u8, 101u8, 32u8, 115u8, 101u8, 110u8, 116u8]
}

pub fn desc_no_images() -> (r: Vec<u8>)
    ensures
        r@ == spec_desc_no_images(),
{
    let v: Vec<u8> = vec![78u8, 111u8, 32u8, 105u8, 109u8, 97u8, 103u8, 101u8, 115u8, 32u8, 119u8, 101u8, 114u8, 101u8, 32u8, 115u8, 101u8, 110u8, 116u8];
    proof {
        assert(v@ =~= spec_desc_no_images());
    }
    v
}

/// The bytes of `Invalid image format`.
pub open spec fn spec_desc_bad_image() -> Seq<u8> {
    seq![73u8, 110u8, 118u8, 97u8, 108u8, 105u8, 100u8, 32u8, 105u8, 109u8, 97u8, 103u8, 101u8, 32u8, 102u8, 111u8, 114u8, 109u8, 97u8, 116u8]
}

pub fn desc_bad_image() -> (r: Vec<u8>)
    ensures
        r@ == spec_desc_bad_image(),
{
    let v: Vec<u8> = vec![73u8, 110u8, 118u8, 97u8, 108u8, 105u8, 100u8, 32u8, 105u8, 109u8, 97u8, 103u8, 101u8, 32u8, 102u8, 111u8, 114u8, 109u8, 97u8, 116u8];
    proof {
        assert(v@ =~= spec_desc_bad_image());
    }
    v
}

/// The bytes of `Not found`.
pub open spec fn spec_desc_not_found() -> Seq<u8> {
    seq![78u8, 111u8, 116u8, 32u8, 102u8, 111u8, 117u8, 110u8, 100u8]
}

pub fn desc_not_found() -> (r: Vec<u8>)
    ensures
        r@ == spec_desc_not_found(),
{
    let v: Vec<u8> = vec![78u8, 111u8, 116u8, 32u8, 102u8, 111u8, 117u8, 110u8, 100u8];
    proof {
        assert(v@ =~= spec_desc_not_found());
    }
    v
}

/// The bytes of `Failed to upload image`.
pub open spec fn spec_desc_upload_rejected() -> Seq<u8> {
    seq![70u8, 97u8, 105u8, 108u8, 101u8, 100u8, 32u8, 116u8, 111u8, 32u8, 117u8, 112u8, 108u8, 111u8, 97u8, 100u8, 32u8, 105u8, 109u8, 97u8, 103u8, 101u8]
}

pub fn desc_upload_rejected() -> (r: Vec<u8>)
    ensures
        r@ == spec_desc_upload_rejected(),
{
    let v: Vec<u8> = vec![70u8, 97u8, 105u8, 108u8, 101u8, 100u8, 32u8, 116u8, 111u8, 32u8, 117u8, 112u8, 108u8, 111u8, 97u8, 100u8, 32u8, 105u8, 109u8, 97u8, 103u8, 101u8];
    proof {
        assert(v@ =~= spec_desc_upload_rejected());
    }
    v
}

/// The bytes of `Internal server error`.
pub open spec fn spec_desc_internal() -> Seq<u8> {
    seq![73u8, 110u8, 116u8, 101u8, 114u8, 110u8, 97u8, 108u8, 32u8, 115u8, 101u8, 114u8, 118u8, 101u8, 114u8, 32u8, 101u8, 114u8, 114u8, 111u8, 114u8]
}

pub fn desc_internal() -> (r: Vec<u8>)
    ensures
        r@ == spec_desc_internal(),
{
    let v: Vec<u8> = vec![73u8, 110u8, 116u8, 101u8, 114u8, 110u8, 97u8, 108u8, 32u8, 115u8, 101u8, 114u8, 118u8, 101u8, 114u8, 32u8, 101u8, 114u8, 114u8, 111u8, 114u8];
    proof {
        assert(v@ =~= spec_desc_internal());
    }
    v
}

/// The bytes of `Failed to read request body`.
pub open spec fn spec_desc_network() -> Seq<u8> {
    seq![70u8, 97u8, 105u8, 108u8, 101u8, 100u8, 32u8, 116u8, 111u8, 32u8, 114u8, 101u8, 97u8, 100u8, 32u8, 114u8, 101u8, 113u8, 117u8, 101u8, 115u8, 116u8, 32u8, 98u8, 111u8, 100u8, 121u8]
}

pub fn desc_network() -> (r: Vec<u8>)
    ensures
        r@ == spec_desc_network(),
{
    let v: Vec<u8> = vec![70u8, 97u8, 105u8, 108u8, 101u8, 100u8, 32u8, 116u8, 111u8, 32u8, 114u8, 101u8, 97u8, 100u8, 32u8, 114u8, 101u8, 113u8, 117u8, 101u8, 115u8, 116u8, 32u8, 98u8, 111u8, 100u8, 121u8];
    proof {
        assert(v@ =~= spec_desc_network());
    }
    v
}

/// The bytes of `Payload too large`.
pub open spec fn spec_desc_too_large() -> Seq<u8> {
    seq![80u8, 97u8, 121u8, 108u8, 111u8, 97u8, 100u8, 32u8, 116u8, 111u8, 111u8, 32u8, 108u8, 97u8, 114u8, 103u8, 101u8]
}

pub fn desc_too_large() -> (r: Vec<u8>)
    ensures
        r@ == spec_desc_too_large(),
{
    let v: Vec<u8> = vec![80u8, 97u8, 121u8, 108u8, 111u8, 97u8, 100u8, 32u8, 116u8, 111u8, 111u8, 32u8, 108u8, 97u8, 114u8, 103u8, 101u8];
    proof {
        assert(v@ =~= spec_desc_too_large());
    }
    v
}

/// The bytes of `GET`.
pub open spec fn spec_tok_get() -> Seq<u8> {
    seq![71u8, 69u8, 84u8]
}

pub fn tok_get() -> (r: Vec<u8>)
    ensures
        r@ == spec_tok_get(),
{
    let v: Vec<u8> = vec![71u8, 69u8, 84u8];
    proof {
        assert(v@ =~= spec_tok_get());
    }
    v
}

/// The bytes of `POST`.
pub open spec fn spec_tok_post() -> Seq<u8> {
    seq![80u8, 79u8, 83u8, 84u8]
}

pub fn tok_post() -> (r: Vec<u8>)
    ensures
        r@ == spec_tok_post(),
{
    let v: Vec<u8> = vec![80u8, 79u8, 83u8, 84u8];
    proof {
        assert(v@ =~= spec_tok_post());
    }
    v
}

/// The bytes of `PUT`.
pub open spec fn spec_tok_put() -> Seq<u8> {
    seq![80u8, 85u8, 84u8]
}

pub fn tok_put() -> (r: Vec<u8>)
    ensures
        r@ == spec_tok_put(),
{
    let v: Vec<u8> = vec![80u8, 85u8, 84u8];
    proof {
        assert(v@ =~= spec_tok_put());
    }
    v
}

/// The bytes of `DELETE`.
pub open spec fn spec_tok_delete() -> Seq<u8> {
    seq![68u8, 69u8, 76u8, 69u8, 84u8, 69u8]
}

pub fn tok_delete() -> (r: Vec<u8>)
    ensures
        r@ == spec_tok_delete(),
{
    let v: Vec<u8> = vec![68u8, 69u8, 76u8, 69u8, 84u8, 69u8];
    proof {
        assert(v@ =~= spec_tok_delete());
    }
    v
}

/// The bytes of `HEAD`.
pub open spec fn spec_tok_head() -> Seq<u8> {
    seq![72u8, 69u8, 65u8, 68u8]
}

pub fn tok_head() -> (r: Vec<u8>)
    ensures
        r@ == spec_tok_head(),
{
    let v: Vec<u8> = vec![72u8, 69u8, 65u8, 68u8];
    proof {
        assert(v@ =~= spec_tok_head());
    }
    v
}

/// The bytes of `OPTIONS`.
pub open spec fn spec_tok_options() -> Seq<u8> {
    seq![79u8, 80u8, 84u8, 73u8, 79u8, 78u8, 83u8]
}

pub fn tok_options() -> (r: Vec<u8>)
    ensures
        r@ == spec_tok_options(),
{
    let v: Vec<u8> = vec![79u8, 80u8, 84u8, 73u8, 79u8, 78u8, 83u8];
    proof {
        assert(v@ =~= spec_tok_options());
    }
    v
}

/// The bytes of `PATCH`.
pub open spec fn spec_tok_patch() -> Seq<u8> {
    seq![80u8, 65u8, 84u8, 67u8, 72u8]
}

pub fn tok_patch() -> (r: Vec<u8>)
    ensures
        r@ == spec_tok_patch(),
{
    let v: Vec<u8> = vec![80u8, 65u8, 84u8, 67u8, 72u8];
    proof {
        assert(v@ =~= spec_tok_patch());
    }
    v
}

} // verus!