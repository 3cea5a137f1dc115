//! Object-store naming: every stored object gets a fresh random
//! alphanumeric key with the format's canonical extension, and the
//! returned URL is the store's public address of that key.

use vstd::prelude::*;
use rand::RngExt;
use crate::bytes_util::push_all;
use crate::images::{ext_of, mime_of, spec_ext, spec_mime, spec_sniff, ImageFormat};
use crate::text::{key_prefix, spec_key_prefix, spec_url_base, url_base};

verus! {

/// Length of the random part of an object key.
pub open spec fn id_len() -> int {
    12
}

pub open spec fn is_alnum_byte(b: u8) -> bool {
    (48 <= b && b <= 57) || (65 <= b && b <= 90) || (97 <= b && b <= 122)
}

/// What the key generator hands out: twelve ASCII letters or digits.
pub open spec fn is_fresh_id(id: Seq<u8>) -> bool {
    id.len() == id_len() && (forall|i: int| 0 <= i < id.len() ==> is_alnum_byte(#[trigger] id[i]))
}

/// Relies on rand's `Alphanumeric` distribution, sampled through
/// `RngExt::sample_iter`: every sampled byte is an ASCII letter or digit.
/// The values themselves are random, so nothing ties one call to another.
#[verifier::external_body]
fn random_id() -> (r: Vec<u8>)
    ensures
        r@.len() == id_len(),
        forall|i: int| 0 <= i < r@.len() ==> is_alnum_byte(#[trigger] r@[i]),
{
    rand::rng().sample_iter(rand::distr::Alphanumeric).take(12).collect()
}

/// The object key for a random id and a format: `img-<id>.<ext>`.
pub open spec fn spec_key(id: Seq<u8>, f: ImageFormat) -> Seq<u8> {
    spec_key_prefix() + id + seq![46u8] + spec_ext(f)
}

pub fn make_key(id: &[u8], f: ImageFormat) -> (r: Vec<u8>)
    ensures
        r@ == spec_key(id@, f),
{
    let mut out = key_prefix();
    push_all(&mut out, id);
    out.push(46);
    let ext = ext_of(f);
    push_all(&mut out, ext.as_slice());
    proof {
        assert(out@ =~= spec_key(id@, f));
    }
    out
}

/// The public URL of a stored object: the store's base address, the
/// bucket, a slash, the key.
pub open spec fn spec_url(bucket: Seq<u8>, key: Seq<u8>) -> Seq<u8> {
    spec_url_base() + bucket + seq![47u8] + key
}

pub fn make_url(bucket: &[u8], key: &[u8]) -> (r: Vec<u8>)
    ensures
        r@ == spec_url(bucket@, key@),
{
    let mut out = url_base();
    push_all(&mut out, bucket);
    out.push(47);
    push_all(&mut out, key);
    proof {
        assert(out@ =~= spec_url(bucket@, key@));
    }
    out
}

/// Everything one stored object needs: the key under which it goes into
/// the bucket, the URL handed back to the caller, the content type sent
/// to the store, and the exact payload bytes.
pub struct UploadPlan {
    pub key: Vec<u8>,
    pub url: Vec<u8>,
    pub content_type: Vec<u8>,
    pub bytes: Vec<u8>,
}

/// A plan is right for a part when its key is `img-<id>.<ext>` for some
/// fresh id and the part's detected format, its URL addresses that key in
/// the bucket, its content type is the format's MIME type, and its bytes
/// are exactly the part's bytes.
pub open spec fn plan_for_part(plan: UploadPlan, part: Seq<u8>, bucket: Seq<u8>) -> bool {
    &&& spec_sniff(part) is Some
    &&& (exists|id: Seq<u8>|
        is_fresh_id(id) && plan.key@ == #[trigger] spec_key(id, spec_sniff(part)->Some_0))
    &&& plan.url@ == spec_url(bucket, plan.key@)
    &&& plan.content_type@ == spec_mime(spec_sniff(part)->Some_0)
    &&& plan.bytes@ == part
}

/// Plans the upload of one part whose format is already detected.
pub fn make_plan(bytes: &[u8], f: ImageFormat, bucket: &[u8]) -> (p: UploadPlan)
    requires
        spec_sniff(bytes@) == Some(f),
    ensures
        plan_for_part(p, bytes@, bucket@),
{
    let id = random_id();
    let key = make_key(id.as_slice(), f);
    let url = make_url(bucket, key.as_slice());
    let content_type = mime_of(f);
    let stored = vstd::slice::slice_to_vec(bytes);
    let p = UploadPlan { key, url, content_type, bytes: stored };
    proof {
        let fmt = spec_sniff(bytes@)->Some_0;
        assert(fmt == f);
        assert(is_fresh_id(id@) && p.key@ == spec_key(id@, fmt));
    }
    p
}

/// Distinct fresh ids give distinct keys, and distinct keys in the same
/// bucket give distinct URLs: uploading the same bytes twice yields two
/// different addresses.
pub proof fn lemma_distinct_ids_distinct_urls(
    id1: Seq<u8>,
    id2: Seq<u8>,
    f1: ImageFormat,
    f2: ImageFormat,
    bucket: Seq<u8>,
)
    requires
        is_fresh_id(id1),
        is_fresh_id(id2),
        id1 != id2,
    ensures
        spec_key(id1, f1) != spec_key(id2, f2),
        spec_url(bucket, spec_key(id1, f1)) != spec_url(bucket, spec_key(id2, f2)),
{
    let k1 = spec_key(id1, f1);
    let k2 = spec_key(id2, f2);
    let pl = spec_key_prefix().len() as int;
    assert forall|j: int| 0 <= j < id_len() implies k1[pl + j] == id1[j] && k2[pl + j]
        == id2[j] by {}
    if k1 == k2 {
        assert forall|j: int| 0 <= j < id_len() implies id1[j] == id2[j] by {
            assert(k1[pl + j] == k2[pl + j]);
        }
        assert(id1 =~= id2);
    }
    let u1 = spec_url(bucket, k1);
    let u2 = spec_url(bucket, k2);
    let o = spec_url_base().len() + bucket.len() + 1 as int;
    if u1 == u2 {
        assert(u1.len() == u2.len());
        assert(k1.len() == k2.len());
        assert forall|j: int| 0 <= j < k1.len() implies k1[j] == k2[j] by {
            assert(u1[o + j] == k1[j]);
            assert(u2[o + j] == k2[j]);
        }
        assert(k1 =~= k2);
    }
}

} // verus!
