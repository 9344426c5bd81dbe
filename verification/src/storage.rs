//! The authenticated-storage collaborator: where verified credentials are
//! committed, keyed by the sender they were verified for.
//!
//! The handler only depends on the capability set — commit a credential
//! for a sender, look a prior one up — stated here as a trait over a
//! map-valued model. An in-memory implementation is provided; deployments
//! may wire in any other implementation of the same contract.

use vstd::prelude::*;
use crate::credential::{Credential, CredentialView, IdentityIdentifier};

verus! {

/// A storage commit that could not be carried out. Such a failure is not
/// attributable to the peer; the handler reports it as an internal error.
#[derive(Clone, Copy, PartialEq, Eq, Structural, Debug)]
pub struct StorageFault {
    pub code: u64,
}

/// Storage for verified credentials, keyed by sender identifier.
pub trait AuthenticatedStorage: Sized {
    /// The committed credentials, as a map from sender to credential value.
    spec fn credentials(&self) -> Map<IdentityIdentifier, CredentialView>;

    /// Commits `credential` as `sender`'s verified credential. On success
    /// the map gains exactly that entry; on failure it is unchanged.
    fn put_credential(
        &mut self,
        sender: IdentityIdentifier,
        credential: Credential,
    ) -> (r: Result<(), StorageFault>)
        ensures
            r is Ok ==> final(self).credentials() == old(self).credentials().insert(
                sender,
                credential@,
            ),
            r is Err ==> final(self).credentials() == old(self).credentials(),
    ;

    /// Looks up the credential previously committed for `sender`, if any.
    fn get_credential(&self, sender: IdentityIdentifier) -> (r: Option<Credential>)
        ensures
            match r {
                Some(c) => self.credentials().contains_key(sender) && c@
                    == self.credentials()[sender],
                None => !self.credentials().contains_key(sender),
            },
    ;
}

/// In-memory authenticated storage: a list of committed entries, where
/// the latest entry for a sender is the one that counts.
pub struct InMemoryStorage {
    pub entries: Vec<(IdentityIdentifier, Credential)>,
}

/// The map that a list of committed entries denotes: later entries
/// overwrite earlier ones for the same sender.
pub open spec fn entries_map(
    s: Seq<(IdentityIdentifier, Credential)>,
) -> Map<IdentityIdentifier, CredentialView>
    decreases s.len(),
{
    if s.len() == 0 {
        Map::empty()
    } else {
        entries_map(s.drop_last()).insert(s.last().0, s.last().1@)
    }
}

impl InMemoryStorage {
    /// An empty store: no sender has a committed credential.
    pub fn new() -> (r: InMemoryStorage)
        ensures
            r.credentials() == Map::<IdentityIdentifier, CredentialView>::empty(),
    {
        let entries: Vec<(IdentityIdentifier, Credential)> = Vec::new();
        assert(entries@ =~= Seq::<(IdentityIdentifier, Credential)>::empty());
        InMemoryStorage { entries }
    }
}

impl AuthenticatedStorage for InMemoryStorage {
    open spec fn credentials(&self) -> Map<IdentityIdentifier, CredentialView> {
        entries_map(self.entries@)
    }

    fn put_credential(
        &mut self,
        sender: IdentityIdentifier,
        credential: Credential,
    ) -> (r: Result<(), StorageFault>)
        ensures
            r is Ok,
    {
        let ghost pre = self.entries@;
        self.entries.push((sender, credential));
        assert(self.entries@.drop_last() =~= pre);
        Ok(())
    }

    fn get_credential(&self, sender: IdentityIdentifier) -> (r: Option<Credential>) {
        let mut found: Option<&Credential> = None;
        let mut i: usize = 0;
        assert(self.entries@.take(0) =~= Seq::<(IdentityIdentifier, Credential)>::empty());
        while i < self.entries.len()
            invariant
                i <= self.entries@.len(),
                match found {
                    Some(c) => entries_map(self.entries@.take(i as int)).contains_key(sender)
                        && c@ == entries_map(self.entries@.take(i as int))[sender],
                    None => !entries_map(self.entries@.take(i as int)).contains_key(sender),
                },
            decreases self.entries@.len() - i,
        {
            let ghost prefix = self.entries@.take(i as int);
            assert(self.entries@.take(i as int + 1).drop_last() =~= prefix);
            assert(self.entries@.take(i as int + 1).last() == self.entries@[i as int]);
            let entry = &self.entries[i];
            if entry.0 == sender {
                found = Some(&entry.1);
            }
            i = i + 1;
        }
        assert(self.entries@.take(self.entries@.len() as int) =~= self.entries@);
        match found {
            Some(c) => Some(c.duplicate()),
            None => None,
        }
    }
}

} // verus!
