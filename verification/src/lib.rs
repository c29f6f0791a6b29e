//! Decision logic of a small tool that downloads Advent of Code puzzle inputs.
//!
//! The library holds every rule of the tool as a verified function from plain
//! values to plain values: which credential is used, which requests are
//! admitted, how a reply of the puzzle service is read, how the cookie
//! database of the browser is handled, and where the input is written. The
//! program around it performs the file, database and network operations that
//! these functions ask for.

pub mod text;
pub mod request;
pub mod response;
pub mod config;
pub mod output;
pub mod cookie;
pub mod pipeline;
