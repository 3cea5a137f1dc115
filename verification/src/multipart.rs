//! Multipart decomposition. A `multipart/form-data` body is split at its
//! boundary into parts; each part's headers are skipped and its payload
//! bytes are kept, in arrival order. The boundary itself comes from the
//! `boundary=` parameter of the `Content-Type` header.

use vstd::prelude::*;
use crate::bytes_util::{bytes_eq, find_sub, lemma_spec_find, push_all, spec_find};
use crate::text::spec_boundary_param;

verus! {

pub open spec fn spec_crlf() -> Seq<u8> {
    seq![13u8, 10u8]
}

pub open spec fn spec_dashes() -> Seq<u8> {
    seq![45u8, 45u8]
}

/// The blank line that separates a part's headers from its payload.
pub open spec fn spec_crlf2() -> Seq<u8> {
    seq![13u8, 10u8, 13u8, 10u8]
}

/// The delimiter that ends a part's payload: CRLF, two dashes, the boundary.
pub open spec fn spec_delim(b: Seq<u8>) -> Seq<u8> {
    spec_crlf() + spec_dashes() + b
}

/// Parses the parts of a multipart body, starting just after a
/// `--boundary` line: each part is a header block ended by a blank line,
/// then payload bytes up to the next delimiter, which is followed either
/// by `--` (end of body) or by CRLF and another part.
pub open spec fn spec_parts_from(rest: Seq<u8>, b: Seq<u8>) -> Option<Seq<Seq<u8>>>
    decreases rest.len(),
{
    match spec_find(rest, spec_crlf2()) {
        None => None,
        Some(h) => if 0 <= h && h + 4 <= rest.len() {
            let after = rest.subrange(h + 4, rest.len() as int);
            match spec_find(after, spec_delim(b)) {
                None => None,
                Some(d) => if 0 <= d && d + spec_delim(b).len() + 2 <= after.len() {
                    let data = after.subrange(0, d);
                    let tail = after.subrange(
                        d + spec_delim(b).len() as int,
                        after.len() as int,
                    );
                    if tail.subrange(0, 2) == spec_dashes() {
                        Some(seq![data])
                    } else if tail.subrange(0, 2) == spec_crlf() {
                        match spec_parts_from(tail.subrange(2, tail.len() as int), b) {
                            None => None,
                            Some(ps) => Some(seq![data] + ps),
                        }
                    } else {
                        None
                    }
                } else {
                    None
                },
            }
        } else {
            None
        },
    }
}

/// Parses a whole multipart body with boundary `b`: it must open with
/// `--b`, followed either by CRLF and at least one part, or by `--`,
/// which closes a body with no parts at all.
pub open spec fn spec_parse_multipart(body: Seq<u8>, b: Seq<u8>) -> Option<Seq<Seq<u8>>> {
    if b.len() == 0 {
        None
    } else if body.len() >= b.len() + 4 && body.subrange(0, 2) == spec_dashes() && body.subrange(
        2,
        2 + b.len() as int,
    ) == b {
        let after = body.subrange(2 + b.len() as int, body.len() as int);
        if after.subrange(0, 2) == spec_crlf() {
            spec_parts_from(after.subrange(2, after.len() as int), b)
        } else if after.subrange(0, 2) == spec_dashes() {
            Some(Seq::<Seq<u8>>::empty())
        } else {
            None
        }
    } else {
        None
    }
}

fn crlf2_vec() -> (r: Vec<u8>)
    ensures
        r@ == spec_crlf2(),
{
    let v: Vec<u8> = vec![13u8, 10u8, 13u8, 10u8];
    proof {
        assert(v@ =~= spec_crlf2());
    }
    v
}

fn delim_vec(b: &[u8]) -> (r: Vec<u8>)
    ensures
        r@ == spec_delim(b@),
{
    let mut v: Vec<u8> = vec![13u8, 10u8, 45u8, 45u8];
    proof {
        assert(v@ =~= spec_crlf() + spec_dashes());
    }
    push_all(&mut v, b);
    proof {
        assert(spec_crlf() + spec_dashes() + b@ =~= spec_delim(b@));
    }
    v
}

/// Executable counterpart of `spec_parts_from`.
fn parts_from(rest: &[u8], b: &[u8]) -> (r: Option<Vec<Vec<u8>>>)
    requires
        b@.len() >= 1,
    ensures
        match r {
            None => spec_parts_from(rest@, b@) == None::<Seq<Seq<u8>>>,
            Some(ps) => spec_parts_from(rest@, b@) == Some(
                ps@.map_values(|p: Vec<u8>| p@),
            ),
        },
    decreases rest@.len(),
{
    let crlf2 = crlf2_vec();
    let h = match find_sub(rest, crlf2.as_slice()) {
        None => {
            return None;
        },
        Some(h) => h,
    };
    let rl = rest.len();
    proof {
        lemma_spec_find(rest@, spec_crlf2());
        assert(spec_crlf2().len() == 4);
        assert(h + 4 <= rl);
    }
    let after = vstd::slice::slice_subrange(rest, h + 4, rl);
    let delim = delim_vec(b);
    let d = match find_sub(after, delim.as_slice()) {
        None => {
            return None;
        },
        Some(d) => d,
    };
    proof {
        lemma_spec_find(after@, spec_delim(b@));
    }
    let dl = delim.len();
    if after.len() - (d + dl) < 2 {
        return None;
    }
    let data = vstd::slice::slice_to_vec(vstd::slice::slice_subrange(after, 0, d));
    let tail = vstd::slice::slice_subrange(after, d + dl, after.len());
    let t0 = tail[0];
    let t1 = tail[1];
    proof {
        assert(tail@.subrange(0, 2) =~= seq![tail@[0], tail@[1]]);
    }
    if t0 == 45 && t1 == 45 {
        proof {
            assert(tail@.subrange(0, 2) =~= spec_dashes());
        }
        let mut ps: Vec<Vec<u8>> = Vec::new();
        ps.push(data);
        proof {
            assert(ps@.map_values(|p: Vec<u8>| p@) =~= seq![ps@[0]@]);
        }
        Some(ps)
    } else if t0 == 13 && t1 == 10 {
        proof {
            assert(tail@.subrange(0, 2) =~= spec_crlf());
            assert(tail@.subrange(0, 2) != spec_dashes());
        }
        let rest2 = vstd::slice::slice_subrange(tail, 2, tail.len());
        proof {
            assert(rest2@ =~= tail@.subrange(2, tail@.len() as int));
        }
        match parts_from(rest2, b) {
            None => None,
            Some(ps) => {
                let mut out: Vec<Vec<u8>> = ps;
                out.insert(0, data);
                proof {
                    assert(out@.map_values(|p: Vec<u8>| p@) =~= seq![data@] + ps@.map_values(
                        |p: Vec<u8>| p@,
                    ));
                }
                Some(out)
            },
        }
    } else {
        proof {
            assert(tail@.subrange(0, 2) != spec_dashes());
            assert(tail@.subrange(0, 2) != spec_crlf());
        }
        None
    }
}

/// Splits a multipart body into the payload bytes of its parts, in
/// arrival order; `None` on any deviation from the grammar.
pub fn parse_multipart(body: &[u8], b: &[u8]) -> (r: Option<Vec<Vec<u8>>>)
    ensures
        match r {
            None => spec_parse_multipart(body@, b@) == None::<Seq<Seq<u8>>>,
            Some(ps) => spec_parse_multipart(body@, b@) == Some(
                ps@.map_values(|p: Vec<u8>| p@),
            ),
        },
{
    if b.len() == 0 {
        return None;
    }
    if body.len() < 4 || body.len() - 4 < b.len() {
        return None;
    }
    let b0 = body[0];
    let b1 = body[1];
    proof {
        assert(body@.subrange(0, 2) =~= seq![body@[0], body@[1]]);
    }
    if !(b0 == 45 && b1 == 45) {
        proof {
            assert(body@.subrange(0, 2) != spec_dashes());
        }
        return None;
    }
    proof {
        assert(body@.subrange(0, 2) =~= spec_dashes());
    }
    let bnd = vstd::slice::slice_subrange(body, 2, 2 + b.len());
    if !bytes_eq(bnd, b) {
        return None;
    }
    let after = vstd::slice::slice_subrange(body, 2 + b.len(), body.len());
    let a0 = after[0];
    let a1 = after[1];
    proof {
        assert(after@.subrange(0, 2) =~= seq![after@[0], after@[1]]);
    }
    if a0 == 13 && a1 == 10 {
        proof {
            assert(after@.subrange(0, 2) =~= spec_crlf());
        }
        let rest = vstd::slice::slice_subrange(after, 2, after.len());
        proof {
            assert(rest@ =~= after@.subrange(2, after@.len() as int));
        }
        parts_from(rest, b)
    } else if a0 == 45 && a1 == 45 {
        proof {
            assert(after@.subrange(0, 2) =~= spec_dashes());
            assert(after@.subrange(0, 2) != spec_crlf());
        }
        let ps: Vec<Vec<u8>> = Vec::new();
        proof {
            assert(ps@.map_values(|p: Vec<u8>| p@) =~= Seq::<Seq<u8>>::empty());
        }
        Some(ps)
    } else {
        proof {
            assert(after@.subrange(0, 2) != spec_crlf());
            assert(after@.subrange(0, 2) != spec_dashes());
        }
        None
    }
}

/// The boundary named by a `Content-Type` header value: the text after
/// `boundary=`, up to the closing quote when quoted, otherwise up to the
/// first `;` or the end; empty boundaries are rejected.
pub open spec fn spec_boundary_of(ct: Seq<u8>) -> Option<Seq<u8>> {
    match spec_find(ct, spec_boundary_param()) {
        None => None,
        Some(i) => if 0 <= i && i + 9 <= ct.len() {
            let rest = ct.subrange(i + 9, ct.len() as int);
            if rest.len() >= 1 && rest[0] == 34 {
                let q = rest.subrange(1, rest.len() as int);
                match spec_find(q, seq![34u8]) {
                    None => None,
                    Some(j) => if j >= 1 {
                        Some(q.subrange(0, j))
                    } else {
                        None
                    },
                }
            } else {
                match spec_find(rest, seq![59u8]) {
                    None => if rest.len() >= 1 {
                        Some(rest)
                    } else {
                        None
                    },
                    Some(j) => if j >= 1 {
                        Some(rest.subrange(0, j))
                    } else {
                        None
                    },
                }
            }
        } else {
            None
        },
    }
}

/// Extracts the multipart boundary from a `Content-Type` header value.
pub fn boundary_of(ct: &[u8]) -> (r: Option<Vec<u8>>)
    ensures
        match r {
            None => spec_boundary_of(ct@) == None::<Seq<u8>>,
            Some(b) => spec_boundary_of(ct@) == Some(b@) && b@.len() >= 1,
        },
{
    let param = crate::text::boundary_param();
    let i = match find_sub(ct, param.as_slice()) {
        None => {
            return None;
        },
        Some(i) => i,
    };
    let cl = ct.len();
    proof {
        lemma_spec_find(ct@, spec_boundary_param());
        assert(spec_boundary_param().len() == 9);
        assert(i + 9 <= cl);
    }
    let rest = vstd::slice::slice_subrange(ct, i + 9, cl);
    if rest.len() >= 1 && rest[0] == 34 {
        let q = vstd::slice::slice_subrange(rest, 1, rest.len());
        proof {
            assert(q@ =~= rest@.subrange(1, rest@.len() as int));
        }
        let quote: Vec<u8> = vec![34u8];
        proof {
            assert(quote@ =~= seq![34u8]);
        }
        match find_sub(q, quote.as_slice()) {
            None => None,
            Some(j) => {
                proof {
                    lemma_spec_find(q@, seq![34u8]);
                }
                if j >= 1 {
                    let b = vstd::slice::slice_to_vec(vstd::slice::slice_subrange(q, 0, j));
                    Some(b)
                } else {
                    None
                }
            },
        }
    } else {
        let semi: Vec<u8> = vec![59u8];
        proof {
            assert(semi@ =~= seq![59u8]);
        }
        match find_sub(rest, semi.as_slice()) {
            None => {
                if rest.len() >= 1 {
                    Some(vstd::slice::slice_to_vec(rest))
                } else {
                    None
                }
            },
            Some(j) => {
                proof {
                    lemma_spec_find(rest@, seq![59u8]);
                }
                if j >= 1 {
                    let b = vstd::slice::slice_to_vec(vstd::slice::slice_subrange(rest, 0, j));
                    Some(b)
                } else {
                    None
                }
            },
        }
    }
}

} // verus!
