//! Rows of the proxy's database tables, and the enumerations stored in them.
pub mod sea_orm_active_enums;
pub mod secondary_user;
pub mod user_keys;
