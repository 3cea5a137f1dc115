//! Parsing the head of an HTTP/1.1 request: the request line into method
//! and path, the header lines into name/value pairs, and the blank line
//! that separates the head from the body.

use vstd::prelude::*;
use crate::auth::Header;
use crate::bytes_util::{bytes_eq, find_sub, lemma_spec_find, spec_find};
use crate::multipart::{spec_crlf, spec_crlf2};
use crate::routes::Method;
use crate::text::{spec_tok_delete, spec_tok_get, spec_tok_head, spec_tok_options, spec_tok_patch,
    spec_tok_post, spec_tok_put, tok_delete, tok_get, tok_head, tok_options, tok_patch, tok_post,
    tok_put};

verus! {

/// The method token of a request line.
pub open spec fn spec_method_of(m: Seq<u8>) -> Method {
    if m == spec_tok_get() {
        Method::Get
    } else if m == spec_tok_post() {
        Method::Post
    } else if m == spec_tok_put() {
        Method::Put
    } else if m == spec_tok_delete() {
        Method::Delete
    } else if m == spec_tok_head() {
        Method::Head
    } else if m == spec_tok_options() {
        Method::Options
    } else if m == spec_tok_patch() {
        Method::Patch
    } else {
        Method::Other
    }
}

pub fn method_of(m: &[u8]) -> (r: Method)
    ensures
        r == spec_method_of(m@),
{
    let get = tok_get();
    let post = tok_post();
    let put = tok_put();
    let delete = tok_delete();
    let head = tok_head();
    let options = tok_options();
    let patch = tok_patch();
    if bytes_eq(m, get.as_slice()) {
        Method::Get
    } else if bytes_eq(m, post.as_slice()) {
        Method::Post
    } else if bytes_eq(m, put.as_slice()) {
        Method::Put
    } else if bytes_eq(m, delete.as_slice()) {
        Method::Delete
    } else if bytes_eq(m, head.as_slice()) {
        Method::Head
    } else if bytes_eq(m, options.as_slice()) {
        Method::Options
    } else if bytes_eq(m, patch.as_slice()) {
        Method::Patch
    } else {
        Method::Other
    }
}

/// Head and body of a raw request, split at the first blank line.
pub open spec fn spec_split_head(req: Seq<u8>) -> Option<(Seq<u8>, Seq<u8>)> {
    match spec_find(req, spec_crlf2()) {
        None => None,
        Some(h) => if 0 <= h && h + 4 <= req.len() {
            Some((req.subrange(0, h), req.subrange(h + 4, req.len() as int)))
        } else {
            None
        },
    }
}

/// Splits a raw request into its head and its body.
pub fn split_head(req: &[u8]) -> (r: Option<(Vec<u8>, Vec<u8>)>)
    ensures
        match r {
            None => spec_split_head(req@) == None::<(Seq<u8>, Seq<u8>)>,
            Some(hb) => spec_split_head(req@) == Some((hb.0@, hb.1@)),
        },
{
    let crlf2: Vec<u8> = vec![13u8, 10u8, 13u8, 10u8];
    proof {
        assert(crlf2@ =~= spec_crlf2());
    }
    match find_sub(req, crlf2.as_slice()) {
        None => None,
        Some(h) => {
            let rl = req.len();
            proof {
                lemma_spec_find(req@, spec_crlf2());
                assert(spec_crlf2().len() == 4);
                assert(h + 4 <= rl);
            }
            let head = vstd::slice::slice_to_vec(vstd::slice::slice_subrange(req, 0, h));
            let body = vstd::slice::slice_to_vec(vstd::slice::slice_subrange(req, h + 4, rl));
            Some((head, body))
        },
    }
}

/// Method and path of a request line: the two space-separated tokens
/// before the protocol version.
pub open spec fn spec_request_line(line: Seq<u8>) -> Option<(Method, Seq<u8>)> {
    match spec_find(line, seq![32u8]) {
        None => None,
        Some(i) => if 0 <= i && i + 1 <= line.len() {
            let m = line.subrange(0, i);
            let rest = line.subrange(i + 1, line.len() as int);
            match spec_find(rest, seq![32u8]) {
                None => None,
                Some(j) => if 0 <= j {
                    Some((spec_method_of(m), rest.subrange(0, j)))
                } else {
                    None
                },
            }
        } else {
            None
        },
    }
}

/// Parses a request line into its method and path.
pub fn parse_request_line(line: &[u8]) -> (r: Option<(Method, Vec<u8>)>)
    ensures
        match r {
            None => spec_request_line(line@) == None::<(Method, Seq<u8>)>,
            Some(mp) => spec_request_line(line@) == Some((mp.0, mp.1@)),
        },
{
    let space: Vec<u8> = vec![32u8];
    proof {
        assert(space@ =~= seq![32u8]);
    }
    match find_sub(line, space.as_slice()) {
        None => None,
        Some(i) => {
            let ll = line.len();
            proof {
                lemma_spec_find(line@, seq![32u8]);
                assert(i + 1 <= ll);
            }
            let m = vstd::slice::slice_subrange(line, 0, i);
            let rest = vstd::slice::slice_subrange(line, i + 1, ll);
            match find_sub(rest, space.as_slice()) {
                None => None,
                Some(j) => {
                    proof {
                        lemma_spec_find(rest@, seq![32u8]);
                    }
                    let method = method_of(m);
                    let path = vstd::slice::slice_to_vec(
                        vstd::slice::slice_subrange(rest, 0, j),
                    );
                    Some((method, path))
                },
            }
        },
    }
}

/// A byte sequence with its leading spaces dropped.
pub open spec fn spec_trim_left(s: Seq<u8>) -> Seq<u8>
    decreases s.len(),
{
    if s.len() > 0 && s[0] == 32 {
        spec_trim_left(s.subrange(1, s.len() as int))
    } else {
        s
    }
}

fn trim_left(s: &[u8]) -> (r: Vec<u8>)
    ensures
        r@ == spec_trim_left(s@),
    decreases s@.len(),
{
    if s.len() > 0 && s[0] == 32 {
        let rest = vstd::slice::slice_subrange(s, 1, s.len());
        trim_left(rest)
    } else {
        vstd::slice::slice_to_vec(s)
    }
}

/// A header line split at its first colon, the value stripped of leading
/// spaces.
pub open spec fn spec_header_line(line: Seq<u8>) -> Option<(Seq<u8>, Seq<u8>)> {
    match spec_find(line, seq![58u8]) {
        None => None,
        Some(c) => if 0 <= c && c + 1 <= line.len() {
            Some((line.subrange(0, c), spec_trim_left(line.subrange(c + 1, line.len() as int))))
        } else {
            None
        },
    }
}

fn parse_header_line(line: &[u8]) -> (r: Option<Header>)
    ensures
        match r {
            None => spec_header_line(line@) == None::<(Seq<u8>, Seq<u8>)>,
            Some(h) => spec_header_line(line@) == Some((h.name@, h.value@)),
        },
{
    let colon: Vec<u8> = vec![58u8];
    proof {
        assert(colon@ =~= seq![58u8]);
    }
    match find_sub(line, colon.as_slice()) {
        None => None,
        Some(c) => {
            let ll = line.len();
            proof {
                lemma_spec_find(line@, seq![58u8]);
                assert(c + 1 <= ll);
            }
            let name = vstd::slice::slice_to_vec(vstd::slice::slice_subrange(line, 0, c));
            let value = trim_left(vstd::slice::slice_subrange(line, c + 1, ll));
            Some(Header { name, value })
        },
    }
}

/// The header lines of a head block, each split at its first colon; a
/// line without a colon makes the whole block malformed.
pub open spec fn spec_header_block(block: Seq<u8>) -> Option<Seq<(Seq<u8>, Seq<u8>)>>
    decreases block.len(),
{
    if block.len() == 0 {
        Some(Seq::<(Seq<u8>, Seq<u8>)>::empty())
    } else {
        match spec_find(block, spec_crlf()) {
            None => match spec_header_line(block) {
                None => None,
                Some(h) => Some(seq![h]),
            },
            Some(i) => if 0 <= i && i + 2 <= block.len() {
                let line = block.subrange(0, i);
                let rest = block.subrange(i + 2, block.len() as int);
                match spec_header_line(line) {
                    None => None,
                    Some(h) => match spec_header_block(rest) {
                        None => None,
                        Some(hs) => Some(seq![h] + hs),
                    },
                }
            } else {
                None
            },
        }
    }
}

fn parse_header_block(block: &[u8]) -> (r: Option<Vec<Header>>)
    ensures
        match r {
            None => spec_header_block(block@) == None::<Seq<(Seq<u8>, Seq<u8>)>>,
            Some(hs) => spec_header_block(block@) == Some(
                hs@.map_values(|h: Header| (h.name@, h.value@)),
            ),
        },
    decreases block@.len(),
{
    if block.len() == 0 {
        let hs: Vec<Header> = Vec::new();
        proof {
            assert(hs@.map_values(|h: Header| (h.name@, h.value@)) =~= Seq::<
                (Seq<u8>, Seq<u8>),
            >::empty());
        }
        return Some(hs);
    }
    let crlf: Vec<u8> = vec![13u8, 10u8];
    proof {
        assert(crlf@ =~= spec_crlf());
    }
    match find_sub(block, crlf.as_slice()) {
        None => {
            match parse_header_line(block) {
                None => None,
                Some(h) => {
                    let mut hs: Vec<Header> = Vec::new();
                    hs.push(h);
                    proof {
                        assert(hs@.map_values(|h: Header| (h.name@, h.value@)) =~= seq![
                            (hs@[0].name@, hs@[0].value@),
                        ]);
                    }
                    Some(hs)
                },
            }
        },
        Some(i) => {
            let bl = block.len();
            proof {
                lemma_spec_find(block@, spec_crlf());
                assert(spec_crlf().len() == 2);
                assert(i + 2 <= bl);
            }
            let line = vstd::slice::slice_subrange(block, 0, i);
            let rest = vstd::slice::slice_subrange(block, i + 2, bl);
            match parse_header_line(line) {
                None => None,
                Some(h) => {
                    match parse_header_block(rest) {
                        None => None,
                        Some(hs) => {
                            let mut out: Vec<Header> = hs;
                            out.insert(0, h);
                            proof {
                                assert(out@.map_values(|h: Header| (h.name@, h.value@)) =~= seq![
                                    (out@[0].name@, out@[0].value@),
                                ] + hs@.map_values(|h: Header| (h.name@, h.value@)));
                            }
                            Some(out)
                        },
                    }
                },
            }
        },
    }
}

/// The parsed head of a request.
pub struct RequestHead {
    pub method: Method,
    pub path: Vec<u8>,
    pub headers: Vec<Header>,
}

/// The fully parsed request: head and body, as `spec_split_head`,
/// `spec_request_line` and `spec_header_block` hand them out.
pub open spec fn spec_parse_request(req: Seq<u8>) -> Option<(Method, Seq<u8>, Seq<
    (Seq<u8>, Seq<u8>),
>, Seq<u8>)> {
    match spec_split_head(req) {
        None => None,
        Some(hb) => {
            let head = hb.0;
            let body = hb.1;
            let line_end = match spec_find(head, spec_crlf()) {
                None => head.len() as int,
                Some(i) => i,
            };
            if 0 <= line_end && line_end <= head.len() {
                let line = head.subrange(0, line_end);
                let block = if line_end + 2 <= head.len() {
                    head.subrange(line_end + 2, head.len() as int)
                } else {
                    Seq::<u8>::empty()
                };
                match spec_request_line(line) {
                    None => None,
                    Some(mp) => match spec_header_block(block) {
                        None => None,
                        Some(hs) => Some((mp.0, mp.1, hs, body)),
                    },
                }
            } else {
                None
            }
        },
    }
}

/// Parses a whole raw request into method, path, headers and body.
pub fn parse_request(req: &[u8]) -> (r: Option<(RequestHead, Vec<u8>)>)
    ensures
        match r {
            None => spec_parse_request(req@) == None::<(Method, Seq<u8>, Seq<(Seq<u8>, Seq<u8>)>, Seq<u8>)>,
            Some(p) => spec_parse_request(req@) == Some(
                (
                    p.0.method,
                    p.0.path@,
                    p.0.headers@.map_values(|h: Header| (h.name@, h.value@)),
                    p.1@,
                ),
            ),
        },
{
    let (head, body) = match split_head(req) {
        None => {
            return None;
        },
        Some(hb) => hb,
    };
    let crlf: Vec<u8> = vec![13u8, 10u8];
    proof {
        assert(crlf@ =~= spec_crlf());
    }
    let hl = head.len();
    let (line, block): (Vec<u8>, Vec<u8>) = match find_sub(head.as_slice(), crlf.as_slice()) {
        None => {
            proof {
                assert(head@.subrange(0, head@.len() as int) =~= head@);
            }
            (head, Vec::new())
        },
        Some(i) => {
            proof {
                lemma_spec_find(head@, spec_crlf());
                assert(spec_crlf().len() == 2);
                assert(i + 2 <= hl);
            }
            let line = vstd::slice::slice_to_vec(
                vstd::slice::slice_subrange(head.as_slice(), 0, i),
            );
            let block = vstd::slice::slice_to_vec(
                vstd::slice::slice_subrange(head.as_slice(), i + 2, hl),
            );
            (line, block)
        },
    };
    let (method, path) = match parse_request_line(line.as_slice()) {
        None => {
            return None;
        },
        Some(mp) => mp,
    };
    match parse_header_block(block.as_slice()) {
        None => None,
        Some(headers) => Some((RequestHead { method, path, headers }, body)),
    }
}

} // verus!
