//! Types of the OAuth session and state persistence layer. The stores
//! themselves do browser-database I/O and live with the caller; the library
//! holds their identities and error taxonomy.

use vstd::prelude::*;

verus! {

/// Why a session or state lookup failed.
#[derive(Debug, Clone, PartialEq, Eq)]
pub enum AuthStoreError {
    InvalidSession,
    NoSessionFound,
    DatabaseError(String),
}

impl AuthStoreError {
    /// The error as a message.
    pub fn message(&self) -> (r: String)
        ensures
            match self {
                AuthStoreError::InvalidSession => r@ == "Invalid session"@,
                AuthStoreError::NoSessionFound => r@ == "No session found"@,
                AuthStoreError::DatabaseError(m) => r@ == m@,
            },
    {
        match self {
            AuthStoreError::InvalidSession => ("Invalid session").to_owned(),
            AuthStoreError::NoSessionFound => ("No session found").to_owned(),
            AuthStoreError::DatabaseError(m) => m.clone(),
        }
    }
}

/// The persistent OAuth session store.
#[derive(Debug, Clone, PartialEq, Eq)]
pub struct IndexDBSessionStore {}

impl IndexDBSessionStore {
    pub fn new() -> (r: IndexDBSessionStore)
        ensures
            r == (IndexDBSessionStore {  }),
    {
        IndexDBSessionStore {  }
    }
}

/// The persistent OAuth state store.
#[derive(Debug, Clone, PartialEq, Eq)]
pub struct IndexDBStateStore {}

impl IndexDBStateStore {
    pub fn new() -> (r: IndexDBStateStore)
        ensures
            r == (IndexDBStateStore {  }),
    {
        IndexDBStateStore {  }
    }
}

} // verus!
