//! Verified building blocks of a blockchain node: metric records and the
//! instrument registry that emits them, hex argument decoding, zone channel
//! queries, node configuration defaults and the sqlite zone demo's request
//! and batching rules.

pub mod config;
pub mod hex_codec;
pub mod indexer;
pub mod metrics;
pub mod node_url;
pub mod provider;
pub mod registry;
pub mod sequencer;
pub mod services;
pub mod text;
pub mod zone;
