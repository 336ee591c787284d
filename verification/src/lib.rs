//! The core of a small HTTP/1.1 server, without the sockets and the files.
//!
//! A connection carries one request and one response. The bytes that were
//! read from it are parsed ([`request`]), the request is routed to one
//! handler ([`route`]), the handler says what is to be done ([`serve`]),
//! and the response is written out byte for byte ([`response`]).
//! [`connection`] strings these together as a state machine that a
//! program drives: the program reads, writes and touches files, and the
//! machine tells it what to do next. [`laws`] states what holds of the
//! whole.
//!
//! Everything works on bytes. Each function's contract equates its result
//! with a specification function of its arguments, so the result never
//! depends on anything else.

pub mod connection;
pub mod encoding;
pub mod error;
pub mod header;
pub mod laws;
pub mod method;
pub mod request;
pub mod response;
pub mod route;
pub mod scan;
pub mod serve;
pub mod store;
pub mod syntax;
