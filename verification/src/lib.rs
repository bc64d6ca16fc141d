//! The protocol core of a client that hands blobs to a data-availability
//! network and later asks whether each was included.

pub mod blob;
pub mod blob_id;
pub mod client;
pub mod cmd;
pub mod dispatch;
pub mod error;
pub mod hex_text;
pub mod inclusion;
pub mod namespace;
pub mod report;
pub mod startup;
pub mod text;
