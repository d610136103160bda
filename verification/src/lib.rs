use vstd::prelude::*;

pub mod packing;
pub mod parsers;
pub mod peer_handling;
pub mod server_handling;
pub mod session;
pub mod sql;
pub mod utils;
pub mod config;
pub mod constants;
pub mod file_transfer;
pub mod gui;
pub mod messages;

verus! {
} // verus!
