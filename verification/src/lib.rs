//! A file server for a serial link: a byte-oriented request/response
//! protocol that lets a remote client read files, stat paths, list
//! directories and exchange terminal characters with the host.
//!
//! The protocol engine is pure: every component works on plain byte
//! buffers and values, so the whole of it is verified.  The serial
//! transport, the file system and the terminal are collaborators that
//! the surrounding application drives; it feeds their results into the
//! functions of this crate and writes the returned frames back out.

pub mod codec;
pub mod commands;
pub mod handlers;
pub mod keys;
pub mod setup;
