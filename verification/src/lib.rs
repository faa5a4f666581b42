//! A personal semantic-search index over a directory of Markdown notes.
//!
//! The library holds the verified core of the system: the codec that binds
//! vectors to stored byte blobs, the persistent vector store's contract, the
//! per-file reindex protocol, the nearest-neighbour selection, the watcher's
//! event dispatch rules, the HTTP request parsing and response framing, and
//! the configuration defaults. Process plumbing (file events, sockets, the
//! embedding model) lives outside the library and talks to it in plain values.

pub mod codec;
pub mod config;
pub mod database;
pub mod embeddings;
pub mod files;
pub mod formatter;
pub mod search;
pub mod server;
pub mod strutil;
pub mod watcher;
