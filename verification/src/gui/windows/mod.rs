//! The logic of the interface's windows, apart from drawing them.
pub mod chatrooms;
pub mod downloads;
pub mod filesearch;
pub mod login;
