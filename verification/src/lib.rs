use vstd::prelude::*;

pub mod addr_map;
pub mod auth;
pub mod client;
pub mod config;
pub mod error;
pub mod lite;
pub mod middleware;
pub mod navigate;
pub mod net;
pub mod protocol;
pub mod server;
pub mod storage;
pub mod text;
pub mod transfer;

verus! {

} // verus!
