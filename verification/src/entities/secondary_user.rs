//! A user given access to another user's account.
use vstd::prelude::*;
use super::sea_orm_active_enums::Role;

verus! {

/// A row of the `secondary_user` table.
#[derive(Clone, Debug, PartialEq)]
pub struct Model {
    /// The row's primary key.
    pub uuid: Vec<u8>,
    /// The user whose account is shared.
    pub user_id: Vec<u8>,
    pub address: String,
    pub description: String,
    pub email: String,
    pub role: Role,
}

/// The tables that a `secondary_user` row refers to.
#[derive(Copy, Clone, Debug)]
pub enum Relation {
    /// `secondary_user.user_id` refers to `user.uuid`.
    User,
}

} // verus!
