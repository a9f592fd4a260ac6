//! The reference in-memory revoked-token store.

use vstd::prelude::*;

use crate::domain::data_stores::{BannedTokenStore, BannedTokenStoreError};
use crate::services::assoc::lemma_push_to_set;

verus! {

/// A minimal revoked-token store: the revoked token strings, each held
/// once. It keeps entries forever; production stores expire an entry once
/// the token it blocks has itself expired.
pub struct HashmapBannedTokenStore {
    tokens: Vec<String>,
}

impl HashmapBannedTokenStore {
    /// The stored token strings.
    pub closed spec fn token_seq(&self) -> Seq<Seq<char>> {
        self.tokens@.map_values(|t: String| t@)
    }

    /// An empty store.
    pub fn new() -> (r: Self)
        ensures
            r.inv(),
            r.tokens() == Set::<Seq<char>>::empty(),
    {
        let r = HashmapBannedTokenStore { tokens: Vec::new() };
        proof {
            assert(r.token_seq() =~= Seq::<Seq<char>>::empty());
            assert(r.tokens() =~= Set::<Seq<char>>::empty());
        }
        r
    }

    /// Whether a token string is stored.
    fn contains_token(&self, token: &String) -> (r: bool)
        ensures
            r == self.token_seq().contains(token@),
    {
        let n = self.tokens.len();
        let mut i: usize = 0;
        while i < n
            invariant
                i <= n,
                n == self.tokens@.len(),
                forall|j: int| 0 <= j < i ==> (#[trigger] self.tokens@[j])@ != token@,
            decreases n - i,
        {
            if self.tokens[i] == *token {
                proof {
                    assert(self.token_seq()[i as int] == token@);
                }
                return true;
            }
            i += 1;
        }
        proof {
            if self.token_seq().contains(token@) {
                let j = choose|j: int|
                    0 <= j < self.token_seq().len() && self.token_seq()[j] == token@;
                assert((self.tokens@[j])@ == token@);
            }
        }
        false
    }
}

impl BannedTokenStore for HashmapBannedTokenStore {
    closed spec fn tokens(&self) -> Set<Seq<char>> {
        self.token_seq().to_set()
    }

    /// Plain memory: nothing here can fail outside the business outcomes.
    open spec fn reliable() -> bool {
        true
    }

    closed spec fn inv(&self) -> bool {
        true
    }

    fn add_token(&mut self, token: String) -> (r: Result<(), BannedTokenStoreError>)
        ensures
            token@.len() == 0 ==> r matches Err(BannedTokenStoreError::TokenNotFound),
            token@.len() > 0 && old(self).tokens().contains(token@) ==> r matches Err(
                BannedTokenStoreError::TokenAlreadyExists,
            ),
            token@.len() > 0 && !old(self).tokens().contains(token@) ==> r is Ok,
    {
        if token.as_str().is_empty() {
            return Err(BannedTokenStoreError::TokenNotFound);
        }
        if self.contains_token(&token) {
            return Err(BannedTokenStoreError::TokenAlreadyExists);
        }
        let ghost prior = self.token_seq();
        let ghost t = token@;
        self.tokens.push(token);
        proof {
            assert(self.token_seq() =~= prior.push(t));
            lemma_push_to_set(prior, t);
        }
        Ok(())
    }

    fn verify_token_exists(&self, token: &str) -> (r: Result<bool, BannedTokenStoreError>)
        ensures
            r is Ok,
    {
        let owned = token.to_owned();
        let found = self.contains_token(&owned);
        Ok(found)
    }
}

} // verus!
