//! Identities, trust anchors and credentials.
//!
//! A credential is an attribute set bound to a subject identifier and
//! signed by one issuer; it is immutable once received, and its validity
//! is a pure function of the credential and the authority set. The
//! signature scheme itself is a collaborator: it is reached through the
//! [`CredentialVerifier`] trait, whose implementors answer whether a
//! given authority's signature over a credential checks out.

use vstd::prelude::*;

verus! {

/// Opaque, comparable identifier naming an identity. The secure-channel
/// layer attaches one to every inbound message as the verified sender.
#[derive(Clone, Copy, PartialEq, Eq, Structural, Debug)]
pub struct IdentityIdentifier {
    pub key_id: u64,
}

/// The public, non-secret counterpart of an identity: a trust anchor
/// whose signature on a credential is accepted as valid. The key is an
/// opaque handle understood by the [`CredentialVerifier`] in use.
#[derive(Clone, Copy, PartialEq, Eq, Structural, Debug)]
pub struct PublicIdentity {
    pub identifier: IdentityIdentifier,
    pub public_key: u64,
}

/// A signed attribute assertion bound to a subject identifier. The
/// signature is an opaque tag interpreted by the [`CredentialVerifier`].
#[derive(Debug)]
pub struct Credential {
    pub subject: IdentityIdentifier,
    pub attributes: Vec<u8>,
    pub signature: u64,
}

/// The mathematical value of a credential: its fields with the attribute
/// bytes as a sequence.
pub struct CredentialView {
    pub subject: IdentityIdentifier,
    pub attributes: Seq<u8>,
    pub signature: u64,
}

impl View for Credential {
    type V = CredentialView;

    open spec fn view(&self) -> CredentialView {
        CredentialView {
            subject: self.subject,
            attributes: self.attributes@,
            signature: self.signature,
        }
    }
}

impl Credential {
    /// Structural equality of credentials as a specification predicate.
    pub open spec fn same_as(&self, other: &Credential) -> bool {
        self@ == other@
    }

    /// Copies a credential field by field.
    pub fn duplicate(&self) -> (c: Credential)
        ensures
            c@ == self@,
    {
        let c = Credential {
            subject: self.subject,
            attributes: crate::api::copy_bytes(&self.attributes),
            signature: self.signature,
        };
        assert(c@ == self@);
        c
    }
}

impl PartialEq for Credential {
    fn eq(&self, other: &Credential) -> (r: bool) {
        self.subject == other.subject && self.signature == other.signature
            && crate::api::bytes_eq(&self.attributes, &other.attributes)
    }
}

impl vstd::std_specs::cmp::PartialEqSpecImpl for Credential {
    open spec fn obeys_eq_spec() -> bool {
        true
    }

    open spec fn eq_spec(&self, other: &Credential) -> bool {
        self.same_as(other)
    }
}

/// Answers whether one authority's signature over a credential checks
/// out. Real deployments plug a cryptographic implementation in here;
/// the decision must be a pure function of the credential and the
/// authority, which is what `signature_valid` captures.
pub trait CredentialVerifier: Sized {
    /// Whether `authority` validly signed `credential`.
    spec fn signature_valid(&self, credential: CredentialView, authority: PublicIdentity) -> bool;

    /// Checks the signature; the answer agrees with `signature_valid`.
    fn check_signature(&self, credential: &Credential, authority: &PublicIdentity) -> (r: bool)
        ensures
            r == self.signature_valid(credential@, *authority),
    ;
}

/// Reference verifier for tests and in-process wiring: it treats the
/// signature as a tag that must equal the issuer's public key. It stands
/// in for a cryptographic scheme without imitating one.
pub struct TagVerifier {}

impl CredentialVerifier for TagVerifier {
    open spec fn signature_valid(&self, credential: CredentialView, authority: PublicIdentity) -> bool {
        credential.signature == authority.public_key
    }

    fn check_signature(&self, credential: &Credential, authority: &PublicIdentity) -> (r: bool) {
        credential.signature == authority.public_key
    }
}

} // verus!
