//! Request handling decisions and user statistics queries of a web3 RPC proxy.
pub mod text;
pub mod decimal;
pub mod hex;
pub mod query_params;
pub mod clock;
pub mod user_queries;
pub mod stats_query;
pub mod entities;
pub mod request;
pub mod jsonrpc_error_count;
