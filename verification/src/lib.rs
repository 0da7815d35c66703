//! Verified core of the super-duper duplicate-file tools.
//!
//! The worker protocol: framing, the hello handshake and the filesystem
//! slots (`worker`); request validation (`validate`, `choices`, `scope`,
//! `session`, `paths`); keyset paging and opaque cursors (`paging`,
//! `cursor`); how store errors reach the client (`errors`, `failure`); and
//! the progress a scan reports (`reporter`, `progress`).
//!
//! The scanner: run statistics and the status messages that advance them
//! (`stats`, `status`, `scan_progress`), the file cache (`cache`), its
//! configuration (`config`) and path handling (`path_parts`).
//!
//! Text helpers shared by all of them live in `text`.
pub mod text;
pub mod failure;
pub mod choices;
pub mod validate;
pub mod cursor;
pub mod paths;
pub mod session;
pub mod scope;
pub mod paging;
pub mod errors;
pub mod progress;
pub mod reporter;
pub mod worker;
pub mod stats;
pub mod status;
pub mod scan_progress;
pub mod cache;
pub mod config;
pub mod path_parts;
pub mod path_tree;
pub mod dupes;
pub mod warnings;
pub mod scan;
