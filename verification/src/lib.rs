pub mod api;
pub mod auth;
pub mod cache;
pub mod clock;
pub mod core_error;
pub mod crypto;
pub mod ids;
pub mod picks;
pub mod responses;
pub mod roles;
pub mod schema;
pub mod server_error;
pub mod sessions;
pub mod storage;
pub mod text;
pub mod types;
pub mod upload;
pub mod users;
