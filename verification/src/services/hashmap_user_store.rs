//! The reference in-memory user store.

use vstd::prelude::*;

use crate::domain::data_stores::{UserStore, UserStoreError};
use crate::domain::email::Email;
use crate::domain::password::Password;
use crate::domain::user::User;
use crate::services::assoc::{
    assoc_map, lemma_assoc_map_domain, lemma_assoc_map_index, lemma_assoc_map_push, unique_keys,
};

verus! {

/// A minimal concurrency-agnostic user store: one entry per registered
/// identity. It keeps the validated secret itself and compares candidates
/// by string equality, which suits tests and the specification baseline;
/// production stores keep only a salted hash.
pub struct HashmapUserStore {
    users: Vec<User>,
}

impl HashmapUserStore {
    /// The entries as keyed pairs: identity to (secret, two-factor flag).
    pub closed spec fn entries(&self) -> Seq<(Seq<char>, (Seq<char>, bool))> {
        self.users@.map_values(|u: User| (u.email@, (u.password@, u.requires_2fa)))
    }

    /// An empty store.
    pub fn new() -> (r: Self)
        ensures
            r.inv(),
            r.users() == Map::<Seq<char>, (Seq<char>, bool)>::empty(),
    {
        let r = HashmapUserStore { users: Vec::new() };
        proof {
            assert(r.entries() =~= Seq::<(Seq<char>, (Seq<char>, bool))>::empty());
        }
        r
    }

    /// The position of the entry for an identity, if one exists.
    fn find_index(&self, email: &Email) -> (r: Option<usize>)
        ensures
            r matches Some(i) ==> i < self.users@.len() && self.users@[i as int].email@ == email@,
            r is None ==> forall|j: int|
                0 <= j < self.users@.len() ==> (#[trigger] self.users@[j]).email@ != email@,
    {
        let n = self.users.len();
        let mut i: usize = 0;
        while i < n
            invariant
                i <= n,
                n == self.users@.len(),
                forall|j: int| 0 <= j < i ==> (#[trigger] self.users@[j]).email@ != email@,
            decreases n - i,
        {
            if self.users[i].email == *email {
                return Some(i);
            }
            i += 1;
        }
        None
    }
}

impl UserStore for HashmapUserStore {
    closed spec fn users(&self) -> Map<Seq<char>, (Seq<char>, bool)> {
        assoc_map(self.entries())
    }

    /// The reference store compares the candidate secret directly.
    open spec fn credential_accepts(stored: Seq<char>, candidate: Seq<char>) -> bool {
        stored == candidate
    }

    /// Plain memory: nothing here can fail outside the business outcomes.
    open spec fn reliable() -> bool {
        true
    }

    closed spec fn inv(&self) -> bool {
        unique_keys(self.entries())
    }

    fn add_user(&mut self, user: User) -> (r: Result<(), UserStoreError>)
        ensures
            r is Ok <==> !old(self).users().contains_key(user.email@),
            r matches Err(e) ==> e == UserStoreError::UserAlreadyExists,
    {
        proof {
            lemma_assoc_map_domain(self.entries(), user.email@);
        }
        match self.find_index(&user.email) {
            Some(i) => {
                proof {
                    assert(self.entries()[i as int].0 == user.email@);
                }
                Err(UserStoreError::UserAlreadyExists)
            },
            None => {
                let ghost prior = self.entries();
                let ghost k = user.email@;
                let ghost v = (user.password@, user.requires_2fa);
                self.users.push(user);
                proof {
                    assert(self.entries() =~= prior.push((k, v)));
                    lemma_assoc_map_push(prior, k, v);
                    assert(unique_keys(self.entries()));
                    assert(Self::credential_accepts(v.0, v.0));
                }
                Ok(())
            },
        }
    }

    fn get_user(&self, email: &Email) -> (r: Result<User, UserStoreError>)
        ensures
            r is Ok <==> self.users().contains_key(email@),
            r matches Err(e) ==> e == UserStoreError::UserNotFound,
    {
        proof {
            lemma_assoc_map_domain(self.entries(), email@);
        }
        match self.find_index(email) {
            Some(i) => {
                proof {
                    lemma_assoc_map_index(self.entries(), i as int);
                }
                Ok(self.users[i].clone())
            },
            None => Err(UserStoreError::UserNotFound),
        }
    }

    fn verify_user(&self, email: &Email, password: &Password) -> (r: Result<(), UserStoreError>)
        ensures
            r is Ok <==> self.users().contains_key(email@) && self.users()[email@].0 == password@,
            r matches Err(UserStoreError::UserNotFound) <==> !self.users().contains_key(email@),
            r matches Err(UserStoreError::InvalidCredentials) <==> self.users().contains_key(
                email@,
            ) && self.users()[email@].0 != password@,
    {
        proof {
            lemma_assoc_map_domain(self.entries(), email@);
        }
        match self.find_index(email) {
            Some(i) => {
                proof {
                    lemma_assoc_map_index(self.entries(), i as int);
                }
                if self.users[i].password == *password {
                    Ok(())
                } else {
                    Err(UserStoreError::InvalidCredentials)
                }
            },
            None => Err(UserStoreError::UserNotFound),
        }
    }
}

} // verus!
