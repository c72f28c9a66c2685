//! The user records that the store reads and writes.

use vstd::prelude::*;

verus! {

/// A stored user row.
#[derive(Debug, Clone, PartialEq, Eq, PartialOrd, Ord)]
pub struct Users {
    pub id: i32,
    pub email: String,
    pub name: String,
    pub password: String,
}

/// The fields of a user to create, or to overwrite a user with.
#[derive(Debug, Clone)]
pub struct NewUser {
    pub email: String,
    pub name: String,
    pub password: String,
}

/// The credentials of a login.
#[derive(Debug, Clone)]
pub struct LoginUser {
    pub email: String,
    pub password: String,
}

/// A failure of the store, with its description.
#[derive(Debug, Clone, PartialEq, Eq)]
pub enum StoreError {
    /// No row matched.
    NotFound(String),
    /// Any other storage failure.
    Database(String),
}

/// The description carried by a store error.
pub open spec fn store_error_message(e: StoreError) -> Seq<char> {
    match e {
        StoreError::NotFound(m) => m@,
        StoreError::Database(m) => m@,
    }
}

impl StoreError {
    /// The description carried by the error.
    pub fn message(self) -> (r: String)
        ensures
            r@ == store_error_message(self),
    {
        match self {
            StoreError::NotFound(m) => m,
            StoreError::Database(m) => m,
        }
    }
}

} // verus!
