//! Request and response envelopes for the credential exchange service.
//!
//! The wire encoding of these envelopes belongs to the transport layer;
//! this module models the decoded shape that routing works on: a method,
//! a slash-delimited path held as its raw bytes, a request identifier
//! echoed in every response, and an optional body. Paths are routed by
//! their non-empty slash-separated segments.

use vstd::prelude::*;
use crate::credential::Credential;

verus! {

/// Status of a wire response: success, a client-attributable failure, or an
/// internal failure while executing a matched action.
#[derive(Clone, Copy, PartialEq, Eq, Structural, Debug)]
pub enum Status {
    Success,
    BadRequest,
    InternalServerError,
}

/// Request method, as carried by the envelope.
#[derive(Clone, Copy, PartialEq, Eq, Structural, Debug)]
pub enum Method {
    Get,
    Post,
    Put,
    Delete,
    Patch,
}

/// Why a request was rejected or failed; rendering these as human-readable
/// text is left to the transport edge.
#[derive(Clone, Copy, PartialEq, Eq, Structural, Debug)]
pub enum Diagnostic {
    /// The envelope carried no recognizable method.
    InvalidMethod,
    /// The presented credential was rejected: no trusted authority signed
    /// it for the sender the channel layer vouches for.
    CredentialRejected,
    /// No action is routed at the requested path.
    InvalidEndpoint,
    /// A matched action failed for a reason not attributable to the peer.
    InternalFailure,
}

/// Error body of a response: the path the diagnostic is addressed to,
/// plus the diagnostic itself.
pub struct ApiError {
    pub path: Vec<u8>,
    pub diagnostic: Diagnostic,
}

/// Body of a response: empty on plain success, an error description on
/// failure, or the local credential presented back on mutual exchange.
pub enum ResponseBody {
    Empty,
    Failure(ApiError),
    Presented(Credential),
}

/// A decoded inbound request: identifier, method, raw path bytes, and the
/// credential carried in the body, if the body held one.
pub struct Request {
    pub id: u64,
    pub method: Option<Method>,
    pub path: Vec<u8>,
    pub body: Option<Credential>,
}

/// An outbound response, echoing the request identifier.
pub struct Response {
    pub id: u64,
    pub status: Status,
    pub body: ResponseBody,
}

/// The byte that separates path segments.
pub const SEPARATOR: u8 = '/' as u8;

/// Folds the remaining path bytes into the list of completed segments
/// `acc`, with `cur` the partially read segment; empty segments are
/// dropped, so leading, trailing and doubled separators do not count.
pub open spec fn seg_fold(p: Seq<u8>, acc: Seq<Seq<u8>>, cur: Seq<u8>) -> Seq<Seq<u8>>
    decreases p.len(),
{
    if p.len() == 0 {
        if cur.len() == 0 {
            acc
        } else {
            acc.push(cur)
        }
    } else if p[0] == SEPARATOR {
        seg_fold(p.skip(1), if cur.len() == 0 { acc } else { acc.push(cur) }, Seq::empty())
    } else {
        seg_fold(p.skip(1), acc, cur.push(p[0]))
    }
}

/// The non-empty slash-separated segments of a path.
pub open spec fn segments_of(p: Seq<u8>) -> Seq<Seq<u8>> {
    seg_fold(p, Seq::empty(), Seq::empty())
}

/// Splits a path into its non-empty slash-separated segments.
pub fn path_segments(path: &Vec<u8>) -> (segs: Vec<Vec<u8>>)
    ensures
        segs.deep_view() == segments_of(path@),
{
    let mut acc: Vec<Vec<u8>> = Vec::new();
    let mut cur: Vec<u8> = Vec::new();
    let mut i: usize = 0;
    assert(path@.skip(0) =~= path@);
    assert(acc.deep_view() =~= Seq::<Seq<u8>>::empty());
    assert(cur@ =~= Seq::<u8>::empty());
    while i < path.len()
        invariant
            i <= path.len(),
            seg_fold(path@.skip(i as int), acc.deep_view(), cur@) == segments_of(path@),
        decreases path.len() - i,
    {
        let ghost pre_acc = acc.deep_view();
        let ghost pre_cur = cur@;
        let ghost rest = path@.skip(i as int);
        assert(rest[0] == path@[i as int]);
        assert(rest.skip(1) =~= path@.skip(i as int + 1));
        if path[i] == SEPARATOR {
            if cur.len() > 0 {
                acc.push(cur);
                assert(acc.deep_view() =~~= pre_acc.push(pre_cur));
                cur = Vec::new();
            }
            assert(cur@ =~= Seq::<u8>::empty());
        } else {
            let b = path[i];
            cur.push(b);
        }
        i = i + 1;
    }
    assert(path@.skip(path@.len() as int) =~= Seq::<u8>::empty());
    if cur.len() > 0 {
        let ghost pre_acc = acc.deep_view();
        let ghost pre_cur = cur@;
        acc.push(cur);
        assert(acc.deep_view() =~~= pre_acc.push(pre_cur));
    }
    acc
}

/// Copies a byte vector; the result holds exactly the same bytes.
pub fn copy_bytes(src: &Vec<u8>) -> (r: Vec<u8>)
    ensures
        r@ == src@,
{
    let mut out: Vec<u8> = Vec::new();
    let mut i: usize = 0;
    while i < src.len()
        invariant
            i <= src.len(),
            out@ == src@.subrange(0, i as int),
        decreases src.len() - i,
    {
        out.push(src[i]);
        i = i + 1;
    }
    assert(out@ =~= src@);
    out
}

/// Compares two byte vectors for equality of their contents.
pub fn bytes_eq(a: &Vec<u8>, b: &Vec<u8>) -> (r: bool)
    ensures
        r == (a@ == b@),
{
    if a.len() != b.len() {
        assert(a@ != b@) by {
            assert(a@.len() != b@.len());
        }
        return false;
    }
    let mut i: usize = 0;
    while i < a.len()
        invariant
            i <= a.len(),
            a@.len() == b@.len(),
            forall|j: int| 0 <= j < i ==> a@[j] == b@[j],
        decreases a.len() - i,
    {
        if a[i] != b[i] {
            return false;
        }
        i = i + 1;
    }
    assert(a@ =~= b@);
    true
}

} // verus!
