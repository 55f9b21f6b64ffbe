//! Verified core of a remote-shell backend: request rules, the reply
//! correlation table, line framing of command output, shell command
//! construction, the authentication ladder, the stream registry and the
//! key toolkit.
pub mod policy;
pub mod signals;
pub mod text;
pub mod lines;
pub mod shell;
pub mod broker;
pub mod storage;
pub mod adapter;
pub mod connect;
pub mod streams;
pub mod keys;
pub mod handlers;
