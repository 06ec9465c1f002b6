//! A minimal HTTP server library: every request, whatever its method, path,
//! headers or body, is answered with status 200 and the fixed text
//! `Hello from Rust!`.
//!
//! The library holds the part of the server that decides: the request and
//! response types, the handler that maps any request to the fixed response,
//! and the fixed bind configuration. The surrounding program binds the
//! socket, accepts connections and frames HTTP; it hands each parsed request
//! to [`server::handle`] and writes the response back.

pub mod message;
pub mod server;
