//! The decisions of a remote desktop screenshot client.
//!
//! The client connects to a remote desktop server, decodes the graphics that
//! the server sends and writes the picture to an image file. Sockets, TLS
//! records, the graphics decoder and the file system belong to the program
//! around this library. What the program asks for, in which order it does its
//! work, what it answers, which key its authentication is bound to and where a
//! screenshot goes is decided here, and every decision has a contract.

pub mod config;
pub mod connect;
pub mod decimal;
pub mod output_path;
pub mod screenshot;
pub mod session;
pub mod session_laws;
pub mod tls;
pub mod trace;
