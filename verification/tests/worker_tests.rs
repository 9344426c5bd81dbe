use credential_store::api::{Diagnostic, Method, Request, Response, ResponseBody, Status};
use credential_store::credential::{
    Credential, IdentityIdentifier, PublicIdentity, TagVerifier,
};
use credential_store::storage::{AuthenticatedStorage, InMemoryStorage};
use credential_store::worker::{CredentialExchangeWorker, Identity};

fn id(n: u64) -> IdentityIdentifier {
    IdentityIdentifier { key_id: n }
}

fn authority(id_n: u64, key: u64) -> PublicIdentity {
    PublicIdentity { identifier: id(id_n), public_key: key }
}

fn credential(subject: u64, signature: u64) -> Credential {
    Credential { subject: id(subject), attributes: vec![1, 2, 3], signature }
}

fn worker(
    authorities: Vec<PublicIdentity>,
    present_back: bool,
    local: Option<Credential>,
) -> CredentialExchangeWorker<InMemoryStorage, TagVerifier> {
    CredentialExchangeWorker::new(
        authorities,
        present_back,
        InMemoryStorage::new(),
        Identity { identifier: id(99), credential: local, verifier: TagVerifier {} },
    )
}

fn post(path: &str, body: Option<Credential>) -> Request {
    Request { id: 7, method: Some(Method::Post), path: path.as_bytes().to_vec(), body }
}

fn is_bad_request(resp: &Response) -> bool {
    resp.status == Status::BadRequest
}

fn failure_diagnostic(resp: &Response) -> Option<Diagnostic> {
    match &resp.body {
        ResponseBody::Failure(e) => Some(e.diagnostic),
        _ => None,
    }
}

#[test]
fn untrusted_issuer_is_rejected_and_not_committed() {
    let mut w = worker(vec![authority(1, 100)], false, None);
    let sender = id(5);
    let cred = credential(5, 999); // signed by a key no authority holds
    let resp = w
        .handle_message(Some(post("actions/present", Some(cred))), sender)
        .expect("a decoded request draws a response");
    assert!(is_bad_request(&resp));
    assert_eq!(resp.id, 7);
    assert_eq!(failure_diagnostic(&resp), Some(Diagnostic::CredentialRejected));
    match &resp.body {
        ResponseBody::Failure(e) => assert_eq!(e.path, "actions/present".as_bytes().to_vec()),
        _ => panic!("expected a failure body"),
    }
    assert!(w.authenticated_storage.get_credential(sender).is_none());

    let cred = credential(5, 999);
    let resp = w
        .handle_message(Some(post("actions/present_mutual", Some(cred))), sender)
        .expect("a decoded request draws a response");
    assert!(is_bad_request(&resp));
    assert!(w.authenticated_storage.get_credential(sender).is_none());
}

#[test]
fn forged_sender_is_rejected() {
    let mut w = worker(vec![authority(1, 100)], false, None);
    // validly signed, but the subject is not the channel-verified sender
    let cred = credential(6, 100);
    let resp = w
        .handle_message(Some(post("actions/present", Some(cred))), id(5))
        .expect("a decoded request draws a response");
    assert!(is_bad_request(&resp));
    assert!(w.authenticated_storage.get_credential(id(5)).is_none());
    assert!(w.authenticated_storage.get_credential(id(6)).is_none());
}

#[test]
fn trusted_issuer_is_accepted_and_committed() {
    let mut w = worker(vec![authority(1, 100), authority(2, 200)], false, None);
    let sender = id(5);
    let cred = credential(5, 200); // signed by the second configured authority
    let expected = cred.duplicate();
    let resp = w
        .handle_message(Some(post("actions/present", Some(cred))), sender)
        .expect("a decoded request draws a response");
    assert_eq!(resp.status, Status::Success);
    assert_eq!(resp.id, 7);
    assert!(matches!(resp.body, ResponseBody::Empty));
    let committed = w.authenticated_storage.get_credential(sender);
    assert_eq!(committed, Some(expected));
}

#[test]
fn mutual_present_back_enabled_returns_local_credential() {
    let local = credential(99, 300);
    let expected_local = local.duplicate();
    let mut w = worker(vec![authority(1, 100)], true, Some(local));
    let sender = id(5);
    let cred = credential(5, 100);
    let resp = w
        .handle_message(Some(post("actions/present_mutual", Some(cred))), sender)
        .expect("a decoded request draws a response");
    assert_eq!(resp.status, Status::Success);
    match resp.body {
        ResponseBody::Presented(c) => assert_eq!(c, expected_local),
        _ => panic!("expected the local credential to be presented back"),
    }
    assert!(w.authenticated_storage.get_credential(sender).is_some());
}

#[test]
fn mutual_present_back_disabled_returns_empty_body() {
    let local = credential(99, 300);
    let mut w = worker(vec![authority(1, 100)], false, Some(local));
    let sender = id(5);
    let cred = credential(5, 100);
    let resp = w
        .handle_message(Some(post("actions/present_mutual", Some(cred))), sender)
        .expect("a decoded request draws a response");
    assert_eq!(resp.status, Status::Success);
    assert!(matches!(resp.body, ResponseBody::Empty));
    assert!(w.authenticated_storage.get_credential(sender).is_some());
}

#[test]
fn mutual_without_local_credential_returns_empty_body() {
    let mut w = worker(vec![authority(1, 100)], true, None);
    let resp = w
        .handle_message(Some(post("actions/present_mutual", Some(credential(5, 100)))), id(5))
        .expect("a decoded request draws a response");
    assert_eq!(resp.status, Status::Success);
    assert!(matches!(resp.body, ResponseBody::Empty));
}

#[test]
fn unmatched_paths_are_bad_requests_for_every_method() {
    let methods = [Method::Post, Method::Get, Method::Put, Method::Delete, Method::Patch];
    for m in methods {
        let mut w = worker(vec![authority(1, 100)], true, None);
        let req = Request {
            id: 3,
            method: Some(m),
            path: "actions/unknown".as_bytes().to_vec(),
            body: Some(credential(5, 100)),
        };
        let resp = w.handle_message(Some(req), id(5)).expect("a response");
        assert!(is_bad_request(&resp));
        assert_eq!(resp.id, 3);
        assert_eq!(failure_diagnostic(&resp), Some(Diagnostic::InvalidEndpoint));
        assert!(w.authenticated_storage.get_credential(id(5)).is_none());
    }
}

#[test]
fn matched_path_with_wrong_method_is_bad_request() {
    let mut w = worker(vec![authority(1, 100)], false, None);
    let req = Request {
        id: 3,
        method: Some(Method::Get),
        path: "actions/present".as_bytes().to_vec(),
        body: Some(credential(5, 100)),
    };
    let resp = w.handle_message(Some(req), id(5)).expect("a response");
    assert!(is_bad_request(&resp));
    assert!(w.authenticated_storage.get_credential(id(5)).is_none());
}

#[test]
fn missing_method_is_bad_request() {
    let mut w = worker(vec![authority(1, 100)], false, None);
    let req = Request {
        id: 11,
        method: None,
        path: "actions/present".as_bytes().to_vec(),
        body: Some(credential(5, 100)),
    };
    let resp = w.handle_message(Some(req), id(5)).expect("a response");
    assert!(is_bad_request(&resp));
    assert_eq!(failure_diagnostic(&resp), Some(Diagnostic::InvalidMethod));
    assert!(w.authenticated_storage.get_credential(id(5)).is_none());
}

#[test]
fn missing_body_is_internal_error() {
    let mut w = worker(vec![authority(1, 100)], false, None);
    let resp = w
        .handle_message(Some(post("actions/present", None)), id(5))
        .expect("a response");
    assert_eq!(resp.status, Status::InternalServerError);
    assert_eq!(failure_diagnostic(&resp), Some(Diagnostic::InternalFailure));
    assert!(w.authenticated_storage.get_credential(id(5)).is_none());
}

#[test]
fn bad_request_names_the_path_and_diagnostic() {
    let resp = CredentialExchangeWorker::<InMemoryStorage, TagVerifier>::bad_request(
        4,
        &"actions/unknown".as_bytes().to_vec(),
        Diagnostic::InvalidEndpoint,
    );
    assert_eq!(resp.id, 4);
    assert!(is_bad_request(&resp));
    match resp.body {
        ResponseBody::Failure(e) => {
            assert_eq!(e.path, "actions/unknown".as_bytes().to_vec());
            assert_eq!(e.diagnostic, Diagnostic::InvalidEndpoint);
        }
        _ => panic!("expected a failure body"),
    }
}

#[test]
fn undecodable_payload_draws_no_response() {
    let mut w = worker(vec![authority(1, 100)], false, None);
    assert!(w.handle_message(None, id(5)).is_none());
    assert!(w.authenticated_storage.get_credential(id(5)).is_none());
}

#[test]
fn redundant_separators_route_like_the_plain_path() {
    let mut w = worker(vec![authority(1, 100)], false, None);
    let resp = w
        .handle_message(Some(post("/actions//present/", Some(credential(5, 100)))), id(5))
        .expect("a response");
    assert_eq!(resp.status, Status::Success);
    assert!(w.authenticated_storage.get_credential(id(5)).is_some());
}

#[test]
fn later_commit_for_same_sender_wins() {
    let mut w = worker(vec![authority(1, 100)], false, None);
    let sender = id(5);
    let first = credential(5, 100);
    let mut second = credential(5, 100);
    second.attributes = vec![9, 9];
    let expected = second.duplicate();
    w.handle_message(Some(post("actions/present", Some(first))), sender);
    w.handle_message(Some(post("actions/present", Some(second))), sender);
    assert_eq!(w.authenticated_storage.get_credential(sender), Some(expected));
}
