//! What the library is for, stated of its calls.
//!
//! Each law takes the arguments and the results of calls, related by `call_ensures`, and says
//! what has to hold between them.
pub mod cancelling;
pub mod operations;
pub mod searching;
pub mod setups;
pub mod sockets;
