//! The api keys of users.
use vstd::prelude::*;

verus! {

/// A row of the `user_keys` table.
#[derive(Clone, Debug, PartialEq)]
pub struct Model {
    /// The row's primary key.
    pub uuid: Vec<u8>,
    /// The user that owns the key.
    pub user_uuid: Vec<u8>,
    /// The key itself; no two rows share one.
    pub api_key: String,
    pub description: String,
    pub private_txs: i8,
    pub active: i8,
}

/// The tables that a `user_keys` row refers to.
#[derive(Copy, Clone, Debug)]
pub enum Relation {
    /// `user_keys.user_uuid` refers to `user.uuid`.
    User,
}

} // verus!
