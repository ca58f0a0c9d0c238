//! Client-side core of a wallet session protocol: a local application drives
//! a user-controlled signing wallet over JSON-RPC, asserting the network the
//! wallet must be on before any operation, querying the wallet's live state,
//! and submitting native-currency transfers for approval and broadcast.
//!
//! This crate holds the verified protocol logic: chain-identifier encoding,
//! request construction, response interpretation, and a model of an honoring
//! wallet against which the protocol's laws are proved. The asynchronous
//! transport that carries the requests lives outside the library.

pub mod error;
pub mod hex;
pub mod session;
pub mod types;
pub mod wallet;
pub mod uint;
