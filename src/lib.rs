pub mod auth;
pub mod client;
pub mod coordinator;
pub mod handlers;
pub mod rpc;
pub mod store;
pub mod token;
