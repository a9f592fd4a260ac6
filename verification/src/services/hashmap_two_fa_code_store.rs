//! The reference in-memory pending-challenge store.

use vstd::prelude::*;

use crate::domain::data_stores::{
    LoginAttemptId, TwoFACode, TwoFACodeStore, TwoFACodeStoreError,
};
use crate::domain::email::Email;
use crate::services::assoc::{
    assoc_map, lemma_assoc_map_domain, lemma_assoc_map_index, lemma_assoc_map_push,
    lemma_assoc_map_remove, lemma_unique_keys_remove, unique_keys,
};

verus! {

/// A minimal pending-challenge store: at most one entry per identity,
/// holding the `(login attempt id, code)` pair of the most recent login
/// attempt. It never expires entries; production stores drop a challenge
/// after its time-to-live.
pub struct HashmapTwoFACodeStore {
    codes: Vec<(Email, (LoginAttemptId, TwoFACode))>,
}

impl HashmapTwoFACodeStore {
    /// The entries as keyed pairs.
    pub closed spec fn entries(&self) -> Seq<(Seq<char>, (Seq<char>, Seq<char>))> {
        self.codes@.map_values(
            |e: (Email, (LoginAttemptId, TwoFACode))| (e.0@, (e.1.0@, e.1.1@)),
        )
    }

    /// An empty store.
    pub fn new() -> (r: Self)
        ensures
            r.inv(),
            r.codes() == Map::<Seq<char>, (Seq<char>, Seq<char>)>::empty(),
    {
        let r = HashmapTwoFACodeStore { codes: Vec::new() };
        proof {
            assert(r.entries() =~= Seq::<(Seq<char>, (Seq<char>, Seq<char>))>::empty());
        }
        r
    }

    /// Whether no challenge is pending.
    pub fn is_empty(&self) -> (r: bool)
        ensures
            r == (self.entries().len() == 0),
    {
        self.codes.len() == 0
    }

    /// The position of the entry for an identity, if one exists.
    fn find_index(&self, email: &Email) -> (r: Option<usize>)
        ensures
            r matches Some(i) ==> i < self.codes@.len() && self.codes@[i as int].0@ == email@,
            r is None ==> forall|j: int|
                0 <= j < self.codes@.len() ==> (#[trigger] self.codes@[j]).0@ != email@,
    {
        let n = self.codes.len();
        let mut i: usize = 0;
        while i < n
            invariant
                i <= n,
                n == self.codes@.len(),
                forall|j: int| 0 <= j < i ==> (#[trigger] self.codes@[j]).0@ != email@,
            decreases n - i,
        {
            if self.codes[i].0 == *email {
                return Some(i);
            }
            i += 1;
        }
        None
    }
}

impl TwoFACodeStore for HashmapTwoFACodeStore {
    closed spec fn codes(&self) -> Map<Seq<char>, (Seq<char>, Seq<char>)> {
        assoc_map(self.entries())
    }

    /// Plain memory: nothing here can fail outside the business outcomes.
    open spec fn reliable() -> bool {
        true
    }

    closed spec fn inv(&self) -> bool {
        unique_keys(self.entries())
    }

    fn add_code(&mut self, email: Email, login_attempt_id: LoginAttemptId, code: TwoFACode) -> (r:
        Result<(), TwoFACodeStoreError>)
        ensures
            r is Ok,
    {
        proof {
            lemma_assoc_map_domain(self.entries(), email@);
        }
        let ghost k = email@;
        let ghost v = (login_attempt_id@, code@);
        match self.find_index(&email) {
            Some(i) => {
                let ghost prior = self.entries();
                proof {
                    lemma_assoc_map_remove(prior, i as int);
                    lemma_unique_keys_remove(prior, i as int);
                }
                self.codes.remove(i);
                let ghost mid = self.entries();
                proof {
                    assert(mid =~= prior.remove(i as int));
                }
                self.codes.push((email, (login_attempt_id, code)));
                proof {
                    assert(self.entries() =~= mid.push((k, v)));
                    lemma_assoc_map_push(mid, k, v);
                    lemma_assoc_map_domain(mid, k);
                    assert(unique_keys(self.entries()));
                    assert(self.codes() =~= old(self).codes().insert(k, v));
                }
                Ok(())
            },
            None => {
                let ghost prior = self.entries();
                self.codes.push((email, (login_attempt_id, code)));
                proof {
                    assert(self.entries() =~= prior.push((k, v)));
                    lemma_assoc_map_push(prior, k, v);
                    assert(unique_keys(self.entries()));
                }
                Ok(())
            },
        }
    }

    fn remove_code(&mut self, email: &Email) -> (r: Result<(), TwoFACodeStoreError>)
        ensures
            r is Ok <==> old(self).codes().contains_key(email@),
    {
        proof {
            lemma_assoc_map_domain(self.entries(), email@);
        }
        match self.find_index(email) {
            Some(i) => {
                let ghost prior = self.entries();
                proof {
                    lemma_assoc_map_index(prior, i as int);
                    lemma_assoc_map_remove(prior, i as int);
                    lemma_unique_keys_remove(prior, i as int);
                }
                self.codes.remove(i);
                proof {
                    assert(self.entries() =~= prior.remove(i as int));
                }
                Ok(())
            },
            None => Err(TwoFACodeStoreError::LoginAttemptIdNotFound),
        }
    }

    fn get_code(&self, email: &Email) -> (r: Result<
        (LoginAttemptId, TwoFACode),
        TwoFACodeStoreError,
    >)
        ensures
            r is Ok <==> self.codes().contains_key(email@),
    {
        proof {
            lemma_assoc_map_domain(self.entries(), email@);
        }
        match self.find_index(email) {
            Some(i) => {
                proof {
                    lemma_assoc_map_index(self.entries(), i as int);
                }
                let pair = &self.codes[i].1;
                Ok((pair.0.clone(), pair.1.clone()))
            },
            None => Err(TwoFACodeStoreError::LoginAttemptIdNotFound),
        }
    }
}

} // verus!
