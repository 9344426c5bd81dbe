//! The credential exchange handler: a message-driven endpoint that
//! verifies credentials presented over an already-authenticated channel.
//!
//! Each inbound unit is one decoded request plus the sender identifier
//! that the secure-channel layer vouches for. The handler routes by
//! method and path, verifies a presented credential against its fixed
//! set of trusted authorities, commits an accepted credential to the
//! authenticated storage before answering success, and — on mutual
//! presentation with the present-back policy enabled — answers with the
//! local identity's own credential.

use vstd::prelude::*;
use vstd::string::StringSliceAdditionalSpecFns;
use crate::api::{
    ApiError, Diagnostic, Method, Request, Response, ResponseBody, Status, copy_bytes, bytes_eq,
    path_segments, segments_of,
};
use crate::credential::{
    Credential, CredentialVerifier, CredentialView, IdentityIdentifier, PublicIdentity,
};
use crate::storage::{AuthenticatedStorage, StorageFault};

verus! {

/// An identity as the handler sees it: its identifier, the credential it
/// currently holds for presenting back, and its verification capability.
pub struct Identity<V: CredentialVerifier> {
    pub identifier: IdentityIdentifier,
    pub credential: Option<Credential>,
    pub verifier: V,
}

/// Outcome of processing an arrived credential: accepted and committed,
/// or rejected as not verifiable for the claimed sender.
#[derive(Clone, Copy, PartialEq, Eq, Structural, Debug)]
pub enum ProcessArrivedCredentialResult {
    Accepted,
    Rejected,
}

/// A failure while executing a matched action that is not attributable
/// to the peer's routing choice: the body held no decodable credential,
/// or the storage commit failed.
#[derive(Clone, Copy, PartialEq, Eq, Structural, Debug)]
pub enum InternalFault {
    InvalidBody,
    Storage(StorageFault),
}

/// Whether some configured authority validly signed `credential` for
/// `sender`: acceptance demands a validating signature and a subject
/// that matches the channel-verified sender.
pub open spec fn credential_accepted<V: CredentialVerifier>(
    verifier: V,
    authorities: Seq<PublicIdentity>,
    sender: IdentityIdentifier,
    credential: CredentialView,
) -> bool {
    exists|j: int|
        0 <= j < authorities.len() && verifier.signature_valid(credential, authorities[j])
            && credential.subject == sender
}

impl<V: CredentialVerifier> Identity<V> {
    /// Verifies a presented credential against the authorities in their
    /// configured order and, exactly on acceptance, commits it to the
    /// authenticated storage before any success is reported.
    pub fn receive_presented_credential<S: AuthenticatedStorage>(
        &self,
        sender: IdentityIdentifier,
        credential: Credential,
        authorities: &Vec<PublicIdentity>,
        storage: &mut S,
    ) -> (r: Result<ProcessArrivedCredentialResult, StorageFault>)
        ensures
            match r {
                Ok(ProcessArrivedCredentialResult::Accepted) => credential_accepted(
                    self.verifier,
                    authorities@,
                    sender,
                    credential@,
                ) && final(storage).credentials() == old(storage).credentials().insert(
                    sender,
                    credential@,
                ),
                Ok(ProcessArrivedCredentialResult::Rejected) => !credential_accepted(
                    self.verifier,
                    authorities@,
                    sender,
                    credential@,
                ) && final(storage).credentials() == old(storage).credentials(),
                Err(_) => credential_accepted(self.verifier, authorities@, sender, credential@)
                    && final(storage).credentials() == old(storage).credentials(),
            },
    {
        let mut accepted = false;
        let mut i: usize = 0;
        while i < authorities.len() && !accepted
            invariant
                i <= authorities@.len(),
                accepted ==> credential_accepted(self.verifier, authorities@, sender, credential@),
                !accepted ==> forall|j: int|
                    0 <= j < i ==> !(self.verifier.signature_valid(credential@, authorities@[j])
                        && credential@.subject == sender),
            decreases authorities@.len() - i,
        {
            let authority = &authorities[i];
            if self.verifier.check_signature(&credential, authority) && credential.subject
                == sender {
                assert(credential_accepted(self.verifier, authorities@, sender, credential@)) by {
                    assert(self.verifier.signature_valid(credential@, authorities@[i as int])
                        && credential@.subject == sender);
                }
                accepted = true;
            }
            i = i + 1;
        }
        if accepted {
            match storage.put_credential(sender, credential) {
                Ok(_) => Ok(ProcessArrivedCredentialResult::Accepted),
                Err(fault) => Err(fault),
            }
        } else {
            Ok(ProcessArrivedCredentialResult::Rejected)
        }
    }
}

/// Where a request is routed: the two credential actions, or nothing.
#[derive(Clone, Copy, PartialEq, Eq, Structural, Debug)]
pub enum Route {
    Present,
    PresentMutual,
    Unrouted,
}

/// First segment of both action paths.
pub open spec fn seg_actions() -> Seq<u8> {
    "actions".spec_bytes()
}

/// Second segment of the plain presentation path.
pub open spec fn seg_present() -> Seq<u8> {
    "present".spec_bytes()
}

/// Second segment of the mutual presentation path.
pub open spec fn seg_present_mutual() -> Seq<u8> {
    "present_mutual".spec_bytes()
}

/// The routing table over (method, path segments).
pub open spec fn route_of(method: Option<Method>, path: Seq<u8>) -> Route {
    if method == Some(Method::Post) && segments_of(path) == seq![seg_actions(), seg_present()] {
        Route::Present
    } else if method == Some(Method::Post) && segments_of(path) == seq![
        seg_actions(),
        seg_present_mutual(),
    ] {
        Route::PresentMutual
    } else {
        Route::Unrouted
    }
}

/// Decides the route of a request.
pub fn route_request(method: Option<Method>, path: &Vec<u8>) -> (r: Route)
    ensures
        r == route_of(method, path@),
{
    let is_post = match method {
        Some(Method::Post) => true,
        _ => false,
    };
    if !is_post {
        return Route::Unrouted;
    }
    let segs = path_segments(path);
    if segs.len() != 2 {
        assert(segments_of(path@) != seq![seg_actions(), seg_present()] && segments_of(path@)
            != seq![seg_actions(), seg_present_mutual()]) by {
            assert(segs.deep_view().len() == segs@.len());
        }
        return Route::Unrouted;
    }
    let actions = vstd::slice::slice_to_vec("actions".as_bytes());
    let present = vstd::slice::slice_to_vec("present".as_bytes());
    let present_mutual = vstd::slice::slice_to_vec("present_mutual".as_bytes());
    assert(segs.deep_view()[0] == segs@[0]@ && segs.deep_view()[1] == segs@[1]@);
    let first_matches = bytes_eq(&segs[0], &actions);
    if !first_matches {
        assert(segments_of(path@)[0] != seg_actions());
        return Route::Unrouted;
    }
    if bytes_eq(&segs[1], &present) {
        assert(segments_of(path@) =~= seq![seg_actions(), seg_present()]);
        return Route::Present;
    }
    if bytes_eq(&segs[1], &present_mutual) {
        assert(segments_of(path@) =~= seq![seg_actions(), seg_present_mutual()]);
        return Route::PresentMutual;
    }
    assert(segments_of(path@)[1] != seg_present() && segments_of(path@)[1]
        != seg_present_mutual());
    Route::Unrouted
}

/// A credential that no configured authority validly signed is never
/// accepted, whoever the sender is: together with the handler's
/// contract, such a presentation draws a bad-request response and is
/// never committed to storage.
pub proof fn lemma_untrusted_issuer_rejected<V: CredentialVerifier>(
    verifier: V,
    authorities: Seq<PublicIdentity>,
    sender: IdentityIdentifier,
    credential: CredentialView,
)
    requires
        forall|j: int|
            0 <= j < authorities.len() ==> !verifier.signature_valid(
                credential,
                #[trigger] authorities[j],
            ),
    ensures
        !credential_accepted(verifier, authorities, sender, credential),
{
}

/// A credential validly signed by some configured authority for the
/// channel-verified sender is always accepted: together with the
/// handler's contract, presenting it draws a success response and
/// commits it to storage for that sender.
pub proof fn lemma_trusted_issuer_accepted<V: CredentialVerifier>(
    verifier: V,
    authorities: Seq<PublicIdentity>,
    sender: IdentityIdentifier,
    credential: CredentialView,
    j: int,
)
    requires
        0 <= j < authorities.len(),
        verifier.signature_valid(credential, authorities[j]),
        credential.subject == sender,
    ensures
        credential_accepted(verifier, authorities, sender, credential),
{
}

/// A path outside the routing table is unrouted for every method, so by
/// the handler's contract it always draws a bad-request response.
pub proof fn lemma_unmatched_path_unrouted(method: Option<Method>, path: Seq<u8>)
    requires
        segments_of(path) != seq![seg_actions(), seg_present()],
        segments_of(path) != seq![seg_actions(), seg_present_mutual()],
    ensures
        route_of(method, path) == Route::Unrouted,
{
}

/// A bad-request response carrying `d`, addressed to `path`.
pub open spec fn is_bad_request(resp: Response, id: u64, path: Seq<u8>, d: Diagnostic) -> bool {
    &&& resp.id == id
    &&& resp.status == Status::BadRequest
    &&& match resp.body {
        ResponseBody::Failure(e) => e.path@ == path && e.diagnostic == d,
        _ => false,
    }
}

/// An internal-server-error response addressed to `path`.
pub open spec fn is_internal_error(resp: Response, id: u64, path: Seq<u8>) -> bool {
    &&& resp.id == id
    &&& resp.status == Status::InternalServerError
    &&& match resp.body {
        ResponseBody::Failure(e) => e.path@ == path && e.diagnostic == Diagnostic::InternalFailure,
        _ => false,
    }
}

/// A success response with an empty body.
pub open spec fn is_success_empty(resp: Response, id: u64) -> bool {
    resp.id == id && resp.status == Status::Success && resp.body is Empty
}

/// What a successful mutual presentation answers with: the local
/// credential exactly when present-back is enabled and one is held,
/// an empty body otherwise.
pub open spec fn presents_back(
    local: Option<Credential>,
    present_back: bool,
    body: ResponseBody,
) -> bool {
    match local {
        Some(l) => if present_back {
            match body {
                ResponseBody::Presented(c) => c@ == l@,
                _ => false,
            }
        } else {
            body is Empty
        },
        None => body is Empty,
    }
}

/// Worker responsible for receiving and verifying the other party's
/// credentials. Its configuration — trusted authorities, the present-back
/// policy, the storage collaborator and the local identity — is fixed at
/// construction; only the storage contents change while it runs.
pub struct CredentialExchangeWorker<S: AuthenticatedStorage, V: CredentialVerifier> {
    pub authorities: Vec<PublicIdentity>,
    pub present_back: bool,
    pub authenticated_storage: S,
    pub identity: Identity<V>,
}

impl<S: AuthenticatedStorage, V: CredentialVerifier> CredentialExchangeWorker<S, V> {
    /// Builds a worker from its four fixed collaborators.
    pub fn new(
        authorities: Vec<PublicIdentity>,
        present_back: bool,
        authenticated_storage: S,
        identity: Identity<V>,
    ) -> (w: Self)
        ensures
            w.authorities == authorities,
            w.present_back == present_back,
            w.authenticated_storage == authenticated_storage,
            w.identity == identity,
    {
        Self { authorities, present_back, authenticated_storage, identity }
    }

    /// Create a generic bad request response.
    pub fn bad_request(id: u64, path: &Vec<u8>, diagnostic: Diagnostic) -> (resp: Response)
        ensures
            is_bad_request(resp, id, path@, diagnostic),
    {
        Response {
            id,
            status: Status::BadRequest,
            body: ResponseBody::Failure(ApiError { path: copy_bytes(path), diagnostic }),
        }
    }

    /// Whether this worker's configuration accepts `credential` as
    /// validly presented by `sender`.
    pub open spec fn accepts(&self, sender: IdentityIdentifier, credential: CredentialView) -> bool {
        credential_accepted(self.identity.verifier, self.authorities@, sender, credential)
    }

    /// Routes one decoded request and executes the matched action.
    ///
    /// A request outside the routing table, or without a recognizable
    /// method, is answered bad-request and changes nothing. On the two
    /// credential actions, a rejected credential is answered bad-request
    /// and is never committed; an accepted one is committed before the
    /// success response is produced. Mutual presentation additionally
    /// answers with the local credential under the present-back policy.
    /// The error cases are the ones not attributable to the peer: a body
    /// without a decodable credential, and a failed storage commit.
    pub fn handle_request(&mut self, req: &Request, sender: IdentityIdentifier) -> (r: Result<
        Response,
        InternalFault,
    >)
        ensures
            final(self).authorities == old(self).authorities,
            final(self).present_back == old(self).present_back,
            final(self).identity == old(self).identity,
            ({
                let route = route_of(req.method, req.path@);
                let before = old(self).authenticated_storage.credentials();
                let after = final(self).authenticated_storage.credentials();
                match r {
                    Ok(resp) => if req.method is None {
                        is_bad_request(resp, req.id, req.path@, Diagnostic::InvalidMethod) && after
                            == before
                    } else {
                        match route {
                            Route::Unrouted => is_bad_request(
                                resp,
                                req.id,
                                req.path@,
                                Diagnostic::InvalidEndpoint,
                            ) && after == before,
                            Route::Present => match req.body {
                                Some(c) => if old(self).accepts(sender, c@) {
                                    is_success_empty(resp, req.id) && after == before.insert(
                                        sender,
                                        c@,
                                    )
                                } else {
                                    is_bad_request(
                                        resp,
                                        req.id,
                                        req.path@,
                                        Diagnostic::CredentialRejected,
                                    ) && after == before
                                },
                                None => false,
                            },
                            Route::PresentMutual => match req.body {
                                Some(c) => if old(self).accepts(sender, c@) {
                                    resp.id == req.id && resp.status == Status::Success
                                        && presents_back(
                                        old(self).identity.credential,
                                        old(self).present_back,
                                        resp.body,
                                    ) && after == before.insert(sender, c@)
                                } else {
                                    is_bad_request(
                                        resp,
                                        req.id,
                                        req.path@,
                                        Diagnostic::CredentialRejected,
                                    ) && after == before
                                },
                                None => false,
                            },
                        }
                    },
                    Err(f) => after == before && req.method is Some && route != Route::Unrouted
                        && match f {
                        InternalFault::InvalidBody => req.body is None,
                        InternalFault::Storage(_) => req.body is Some && old(self).accepts(
                            sender,
                            req.body->Some_0@,
                        ),
                    },
                }
            }),
    {
        let method = match req.method {
            Some(m) => m,
            None => {
                return Ok(Self::bad_request(req.id, &req.path, Diagnostic::InvalidMethod));
            },
        };
        let route = route_request(Some(method), &req.path);
        match route {
            Route::Present => {
                let credential = match &req.body {
                    Some(c) => c.duplicate(),
                    None => {
                        return Err(InternalFault::InvalidBody);
                    },
                };
                match self.identity.receive_presented_credential(
                    sender,
                    credential,
                    &self.authorities,
                    &mut self.authenticated_storage,
                ) {
                    Ok(ProcessArrivedCredentialResult::Accepted) => Ok(
                        Response { id: req.id, status: Status::Success, body: ResponseBody::Empty },
                    ),
                    Ok(ProcessArrivedCredentialResult::Rejected) => Ok(
                        Self::bad_request(req.id, &req.path, Diagnostic::CredentialRejected),
                    ),
                    Err(fault) => Err(InternalFault::Storage(fault)),
                }
            },
            Route::PresentMutual => {
                let credential = match &req.body {
                    Some(c) => c.duplicate(),
                    None => {
                        return Err(InternalFault::InvalidBody);
                    },
                };
                match self.identity.receive_presented_credential(
                    sender,
                    credential,
                    &self.authorities,
                    &mut self.authenticated_storage,
                ) {
                    Ok(ProcessArrivedCredentialResult::Accepted) => {
                        if self.present_back {
                            match &self.identity.credential {
                                Some(local) => Ok(
                                    Response {
                                        id: req.id,
                                        status: Status::Success,
                                        body: ResponseBody::Presented(local.duplicate()),
                                    },
                                ),
                                None => Ok(
                                    Response {
                                        id: req.id,
                                        status: Status::Success,
                                        body: ResponseBody::Empty,
                                    },
                                ),
                            }
                        } else {
                            Ok(
                                Response {
                                    id: req.id,
                                    status: Status::Success,
                                    body: ResponseBody::Empty,
                                },
                            )
                        }
                    },
                    Ok(ProcessArrivedCredentialResult::Rejected) => Ok(
                        Self::bad_request(req.id, &req.path, Diagnostic::CredentialRejected),
                    ),
                    Err(fault) => Err(InternalFault::Storage(fault)),
                }
            },
            Route::Unrouted => Ok(
                Self::bad_request(req.id, &req.path, Diagnostic::InvalidEndpoint),
            ),
        }
    }

    /// Processes one inbound unit: the decode outcome of the payload and
    /// the channel-verified sender. A payload that did not decode as a
    /// request envelope draws no response at all; an internal failure
    /// while executing a matched action is reported to the peer as an
    /// internal-server-error response rather than a silent drop.
    pub fn handle_message(&mut self, decoded: Option<Request>, sender: IdentityIdentifier) -> (r:
        Option<Response>)
        ensures
            final(self).authorities == old(self).authorities,
            final(self).present_back == old(self).present_back,
            final(self).identity == old(self).identity,
            decoded is None ==> r is None && final(self).authenticated_storage.credentials() == old(
                self,
            ).authenticated_storage.credentials(),
            ({
                let before = old(self).authenticated_storage.credentials();
                let after = final(self).authenticated_storage.credentials();
                match decoded {
                    None => r is None,
                    Some(req) => {
                        let route = route_of(req.method, req.path@);
                        match r {
                            Some(resp) => if req.method is None {
                                is_bad_request(resp, req.id, req.path@, Diagnostic::InvalidMethod)
                                    && after == before
                            } else {
                                match route {
                                    Route::Unrouted => is_bad_request(
                                        resp,
                                        req.id,
                                        req.path@,
                                        Diagnostic::InvalidEndpoint,
                                    ) && after == before,
                                    Route::Present => match req.body {
                                        Some(c) => if old(self).accepts(sender, c@) {
                                            (is_success_empty(resp, req.id) && after
                                                == before.insert(sender, c@)) || (is_internal_error(
                                                resp,
                                                req.id,
                                                req.path@,
                                            ) && after == before)
                                        } else {
                                            is_bad_request(
                                                resp,
                                                req.id,
                                                req.path@,
                                                Diagnostic::CredentialRejected,
                                            ) && after == before
                                        },
                                        None => is_internal_error(resp, req.id, req.path@) && after
                                            == before,
                                    },
                                    Route::PresentMutual => match req.body {
                                        Some(c) => if old(self).accepts(sender, c@) {
                                            (resp.id == req.id && resp.status == Status::Success
                                                && presents_back(
                                                old(self).identity.credential,
                                                old(self).present_back,
                                                resp.body,
                                            ) && after == before.insert(sender, c@)) || (
                                            is_internal_error(resp, req.id, req.path@) && after
                                                == before)
                                        } else {
                                            is_bad_request(
                                                resp,
                                                req.id,
                                                req.path@,
                                                Diagnostic::CredentialRejected,
                                            ) && after == before
                                        },
                                        None => is_internal_error(resp, req.id, req.path@) && after
                                            == before,
                                    },
                                }
                            },
                            None => false,
                        }
                    },
                }
            }),
    {
        let req = match decoded {
            Some(r) => r,
            None => {
                return None;
            },
        };
        match self.handle_request(&req, sender) {
            Ok(resp) => Some(resp),
            Err(_) => Some(
                Response {
                    id: req.id,
                    status: Status::InternalServerError,
                    body: ResponseBody::Failure(
                        ApiError {
                            path: copy_bytes(&req.path),
                            diagnostic: Diagnostic::InternalFailure,
                        },
                    ),
                },
            ),
        }
    }
}

} // verus!
