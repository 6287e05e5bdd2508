//! Ingestion of compressed archives of timestamped social-media records:
//! the rules that decide how a file is decoded, which records are admitted
//! and how admitted records are batched into a transactional store.

pub mod cli;
pub mod decompress;
pub mod deser;
pub mod filter;
pub mod pipeline;
pub mod radix;
pub mod reddit_types;
pub mod sqlite;
pub mod storage;
