//! A fixed-size worker pool and the request handling built on it, written so
//! that every decision the server makes is a verified function on plain
//! values. Threads, sockets and files stay with the caller, who drives the
//! pool by handing it events and performing the actions it answers with.

pub mod connection;
pub mod guarantees;
pub mod headers;
pub mod message;
pub mod model;
pub mod pool;
pub mod queue;
pub mod request;
pub mod response;
pub mod text;
pub mod worker;
