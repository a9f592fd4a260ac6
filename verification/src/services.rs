//! Reference implementations of the store abstractions and collaborators:
//! minimal in-memory stores used for testing and as the specification
//! baseline, the credential verifier, and a no-op notification client.

pub mod assoc;
pub mod hashed_user_store;
pub mod hashmap_banned_token_store;
pub mod hashmap_two_fa_code_store;
pub mod hashmap_user_store;
pub mod mock_email_client;
pub mod password_hash;
