//! Core of a concurrent TCP echo server: the decisions of the listener and of
//! each connection handler, stated and proved apart from the sockets. Beside
//! it stand a few small items of their own: companies, coins, the first word
//! of a text, a list of servers and the errors of a service call.

pub mod coin;
pub mod company;
pub mod inventory;
pub mod listener;
pub mod report;
pub mod service;
pub mod session;
pub mod text;
pub mod trace;
