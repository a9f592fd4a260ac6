//! A user store that persists only credential hashes.
//!
//! This is the production discipline of the user store: the secret is
//! hashed with a fresh salt when the user is registered, only the hash is
//! kept, and a login candidate is checked against the hash. The entries
//! live in memory here; a database-backed store keeps the same rows and
//! the same contract, with the row traffic at the process edge.

use vstd::prelude::*;

use crate::domain::data_stores::{UserStore, UserStoreError};
use crate::domain::email::Email;
use crate::domain::password::{valid_password, Password, MIN_PASSWORD_LEN};
use crate::domain::user::User;
use crate::services::assoc::{
    assoc_map, lemma_assoc_map_domain, lemma_assoc_map_index, lemma_assoc_map_push, unique_keys,
};
use crate::services::password_hash::{
    compute_password_hash, hash_matches, is_password_hash, verify_password_hash,
};

verus! {

/// A user store holding, for each registered identity, the salted hash of
/// its secret and the two-factor flag — never the secret itself.
pub struct HashedUserStore {
    users: Vec<(Email, (String, bool))>,
}

impl HashedUserStore {
    /// The entries as keyed pairs: identity to (credential hash,
    /// two-factor flag).
    pub closed spec fn entries(&self) -> Seq<(Seq<char>, (Seq<char>, bool))> {
        self.users@.map_values(|e: (Email, (String, bool))| (e.0@, (e.1.0@, e.1.1)))
    }

    /// Every stored credential is a well-formed hash string, long enough
    /// to ride in a `Password` when the record is read back.
    pub closed spec fn credentials_wf(&self) -> bool {
        forall|i: int|
            0 <= i < self.entries().len() ==> is_password_hash(
                (#[trigger] self.entries()[i]).1.0,
            ) && valid_password(self.entries()[i].1.0)
    }

    /// An empty store.
    pub fn new() -> (r: Self)
        ensures
            r.inv(),
            r.users() == Map::<Seq<char>, (Seq<char>, bool)>::empty(),
    {
        let r = HashedUserStore { users: Vec::new() };
        proof {
            assert(r.entries() =~= Seq::<(Seq<char>, (Seq<char>, bool))>::empty());
        }
        r
    }

    /// The position of the entry for an identity, if one exists.
    fn find_index(&self, email: &Email) -> (r: Option<usize>)
        ensures
            r matches Some(i) ==> i < self.users@.len() && self.users@[i as int].0@ == email@,
            r is None ==> forall|j: int|
                0 <= j < self.users@.len() ==> (#[trigger] self.users@[j]).0@ != email@,
    {
        let n = self.users.len();
        let mut i: usize = 0;
        while i < n
            invariant
                i <= n,
                n == self.users@.len(),
                forall|j: int| 0 <= j < i ==> (#[trigger] self.users@[j]).0@ != email@,
            decreases n - i,
        {
            if self.users[i].0 == *email {
                return Some(i);
            }
            i += 1;
        }
        None
    }
}

impl UserStore for HashedUserStore {
    closed spec fn users(&self) -> Map<Seq<char>, (Seq<char>, bool)> {
        assoc_map(self.entries())
    }

    /// The stored credential is a hash; it accepts the secrets it
    /// verifies against.
    open spec fn credential_accepts(stored: Seq<char>, candidate: Seq<char>) -> bool {
        hash_matches(stored, candidate)
    }

    /// Hashing draws a fresh random salt, which can fail, so registration
    /// cannot be promised to succeed.
    open spec fn reliable() -> bool {
        false
    }

    closed spec fn inv(&self) -> bool {
        unique_keys(self.entries()) && self.credentials_wf()
    }

    fn add_user(&mut self, user: User) -> (r: Result<(), UserStoreError>)
        ensures
            r matches Err(UserStoreError::UserAlreadyExists) <==> old(self).users().contains_key(
                user.email@,
            ),
    {
        proof {
            lemma_assoc_map_domain(self.entries(), user.email@);
        }
        match self.find_index(&user.email) {
            Some(i) => {
                proof {
                    assert(self.entries()[i as int].0 == user.email@);
                }
                Err(UserStoreError::UserAlreadyExists)
            },
            None => {
                let hash = match compute_password_hash(&user.password) {
                    Ok(hash) => hash,
                    Err(_) => {
                        return Err(UserStoreError::UnexpectedError);
                    },
                };
                // A credential hash is far longer than a minimal secret; a
                // shorter one would be corruption and must not be stored,
                // or reading the record back would fail.
                if hash.as_str().unicode_len() < MIN_PASSWORD_LEN {
                    return Err(UserStoreError::UnexpectedError);
                }
                let ghost prior = self.entries();
                let ghost k = user.email@;
                let ghost v = (hash@, user.requires_2fa);
                self.users.push((user.email, (hash, user.requires_2fa)));
                proof {
                    assert(self.entries() =~= prior.push((k, v)));
                    lemma_assoc_map_push(prior, k, v);
                    assert(unique_keys(self.entries()));
                    assert(self.credentials_wf());
                    assert(Self::credential_accepts(v.0, user.password@));
                }
                Ok(())
            },
        }
    }

    fn get_user(&self, email: &Email) -> (r: Result<User, UserStoreError>)
        ensures
            r is Ok <==> self.users().contains_key(email@),
            r matches Err(e) ==> e == UserStoreError::UserNotFound,
    {
        proof {
            lemma_assoc_map_domain(self.entries(), email@);
        }
        match self.find_index(email) {
            Some(i) => {
                proof {
                    lemma_assoc_map_index(self.entries(), i as int);
                    assert(valid_password(self.entries()[i as int].1.0));
                }
                let entry = &self.users[i];
                // The record carries the hash where a secret would stand;
                // the invariant guarantees it rides in a `Password`.
                match Password::parse(entry.1.0.clone()) {
                    Ok(password) => Ok(
                        User { email: entry.0.clone(), password, requires_2fa: entry.1.1 },
                    ),
                    Err(_) => Err(UserStoreError::UnexpectedError),
                }
            },
            None => Err(UserStoreError::UserNotFound),
        }
    }

    fn verify_user(&self, email: &Email, password: &Password) -> (r: Result<(), UserStoreError>)
        ensures
            r is Ok <==> self.users().contains_key(email@) && hash_matches(
                self.users()[email@].0,
                password@,
            ),
            r matches Err(UserStoreError::UserNotFound) <==> !self.users().contains_key(email@),
            r matches Err(UserStoreError::InvalidCredentials) <==> self.users().contains_key(
                email@,
            ) && !hash_matches(self.users()[email@].0, password@),
    {
        proof {
            lemma_assoc_map_domain(self.entries(), email@);
        }
        match self.find_index(email) {
            Some(i) => {
                proof {
                    lemma_assoc_map_index(self.entries(), i as int);
                    assert(is_password_hash(self.entries()[i as int].1.0));
                }
                match verify_password_hash(self.users[i].1.0.as_str(), password) {
                    Ok(true) => Ok(()),
                    Ok(false) => Err(UserStoreError::InvalidCredentials),
                    // Unreachable under the invariant: every stored
                    // credential is a well-formed hash.
                    Err(_) => Err(UserStoreError::UnexpectedError),
                }
            },
            None => Err(UserStoreError::UserNotFound),
        }
    }
}

} // verus!
