//! Verified core logic of a content-addressed block exchange node: the
//! bitswap protocol identifiers and length-delimited framing, peer and query
//! bookkeeping, bounded collections, multicodec codes, the balanced DAG layout
//! used to chunk files, the service status rules of the command line tool,
//! the gateway's error answers and the text form of RPC addresses.

pub mod framing;
pub mod hashed;
pub mod protocol;
pub mod peer_manager;
pub mod query;
pub mod balanced_tree;
pub mod codecs;
pub mod collections;
pub mod text_order;
pub mod services;
pub mod gateway_error;
pub mod addr;
pub mod store_client;
pub mod session;
