//! The service's error taxonomy, its mapping to HTTP status codes, and
//! the JSON error envelope `{"code":<status>,"description":"..."}`.

use vstd::prelude::*;
use crate::bytes_util::push_all;
use crate::text::{env_close, env_mid, env_open, spec_env_close, spec_env_mid, spec_env_open};

verus! {

/// The kinds of failure a request can end in.
#[derive(Clone, Copy, Debug, PartialEq, Eq, Structural)]
pub enum ErrorKind {
    NotFound,
    Unauthorized,
    Parse,
    Image,
    PayloadTooLarge,
    Network,
    Internal,
}

impl ErrorKind {
    /// HTTP status code of each error kind.
    pub open spec fn spec_code(self) -> u16 {
        match self {
            ErrorKind::NotFound => 404,
            ErrorKind::Unauthorized => 401,
            ErrorKind::Parse => 400,
            ErrorKind::Image => 400,
            ErrorKind::PayloadTooLarge => 413,
            ErrorKind::Network => 502,
            ErrorKind::Internal => 500,
        }
    }

    pub fn code(&self) -> (r: u16)
        ensures
            r == self.spec_code(),
    {
        match self {
            ErrorKind::NotFound => 404,
            ErrorKind::Unauthorized => 401,
            ErrorKind::Parse => 400,
            ErrorKind::Image => 400,
            ErrorKind::PayloadTooLarge => 413,
            ErrorKind::Network => 502,
            ErrorKind::Internal => 500,
        }
    }

    /// Decimal digits of the status code, as bytes.
    pub open spec fn spec_code_bytes(self) -> Seq<u8> {
        match self {
            ErrorKind::NotFound => seq![52u8, 48u8, 52u8],
            ErrorKind::Unauthorized => seq![52u8, 48u8, 49u8],
            ErrorKind::Parse => seq![52u8, 48u8, 48u8],
            ErrorKind::Image => seq![52u8, 48u8, 48u8],
            ErrorKind::PayloadTooLarge => seq![52u8, 49u8, 51u8],
            ErrorKind::Network => seq![53u8, 48u8, 50u8],
            ErrorKind::Internal => seq![53u8, 48u8, 48u8],
        }
    }

    pub fn code_bytes(&self) -> (r: Vec<u8>)
        ensures
            r@ == self.spec_code_bytes(),
    {
        let v: Vec<u8> = match self {
            ErrorKind::NotFound => vec![52u8, 48u8, 52u8],
            ErrorKind::Unauthorized => vec![52u8, 48u8, 49u8],
            ErrorKind::Parse => vec![52u8, 48u8, 48u8],
            ErrorKind::Image => vec![52u8, 48u8, 48u8],
            ErrorKind::PayloadTooLarge => vec![52u8, 49u8, 51u8],
            ErrorKind::Network => vec![53u8, 48u8, 50u8],
            ErrorKind::Internal => vec![53u8, 48u8, 48u8],
        };
        proof {
            assert(v@ =~= self.spec_code_bytes());
        }
        v
    }
}

/// A failure, as the pipeline reports it: a kind plus a human-readable
/// description that ends up in the JSON envelope.
#[derive(Debug)]
pub struct ServiceError {
    pub kind: ErrorKind,
    pub description: Vec<u8>,
}

/// JSON string escaping of one byte: quotes and backslashes are
/// preceded by a backslash, everything else passes through.
pub open spec fn spec_escape_byte(b: u8) -> Seq<u8> {
    if b == 34 || b == 92 {
        seq![92u8, b]
    } else {
        seq![b]
    }
}

/// JSON string escaping of a byte sequence.
pub open spec fn spec_escape(s: Seq<u8>) -> Seq<u8>
    decreases s.len(),
{
    if s.len() == 0 {
        seq![]
    } else {
        spec_escape_byte(s[0]) + spec_escape(s.subrange(1, s.len() as int))
    }
}

/// Escaping distributes over concatenation.
pub proof fn lemma_escape_app(a: Seq<u8>, b: Seq<u8>)
    ensures
        spec_escape(a + b) == spec_escape(a) + spec_escape(b),
    decreases a.len(),
{
    if a.len() == 0 {
        assert(a + b =~= b);
        assert(spec_escape(a) + spec_escape(b) =~= spec_escape(b));
    } else {
        let t = a.subrange(1, a.len() as int);
        lemma_escape_app(t, b);
        assert((a + b).subrange(1, (a + b).len() as int) =~= t + b);
        assert((a + b)[0] == a[0]);
        assert(spec_escape_byte(a[0]) + (spec_escape(t) + spec_escape(b)) =~= (spec_escape_byte(
            a[0],
        ) + spec_escape(t)) + spec_escape(b));
    }
}

/// Escapes `s` for inclusion inside a JSON string literal.
pub fn json_escape(s: &[u8]) -> (r: Vec<u8>)
    ensures
        r@ == spec_escape(s@),
{
    let mut out: Vec<u8> = Vec::new();
    let mut i: usize = 0;
    while i < s.len()
        invariant
            i <= s@.len(),
            out@ == spec_escape(s@.subrange(0, i as int)),
        decreases s@.len() - i,
    {
        let b = s[i];
        if b == 34 || b == 92 {
            out.push(92);
            out.push(b);
        } else {
            out.push(b);
        }
        proof {
            let pre = s@.subrange(0, i as int);
            lemma_escape_app(pre, seq![s@[i as int]]);
            assert(pre + seq![s@[i as int]] =~= s@.subrange(0, i + 1));
            let single = seq![s@[i as int]];
            assert(single.subrange(1, 1) =~= Seq::<u8>::empty());
            assert(spec_escape(single.subrange(1, 1)) =~= Seq::<u8>::empty());
            assert(spec_escape(single) =~= spec_escape_byte(s@[i as int]));
            assert(out@ =~= spec_escape(pre) + spec_escape_byte(s@[i as int]));
        }
        i += 1;
    }
    proof {
        assert(s@.subrange(0, s@.len() as int) =~= s@);
    }
    out
}

/// The JSON error envelope for a failed request.
pub open spec fn spec_envelope(kind: ErrorKind, desc: Seq<u8>) -> Seq<u8> {
    spec_env_open() + kind.spec_code_bytes() + spec_env_mid() + spec_escape(desc) + spec_env_close()
}

/// Renders `{"code":<status>,"description":"<desc>"}`.
pub fn envelope(kind: ErrorKind, desc: &[u8]) -> (r: Vec<u8>)
    ensures
        r@ == spec_envelope(kind, desc@),
{
    let mut out = env_open();
    let code = kind.code_bytes();
    push_all(&mut out, code.as_slice());
    let mid = env_mid();
    push_all(&mut out, mid.as_slice());
    let esc = json_escape(desc);
    push_all(&mut out, esc.as_slice());
    let close = env_close();
    push_all(&mut out, close.as_slice());
    out
}

} // verus!
