//! A content-moderating media proxy library.
//!
//! The crate holds the verified core of the proxy: the URL safety filter,
//! the byte-budgeted LRU document cache, the image resizing policy, the
//! JSON-RPC envelope rules with their error codes, the verdict bookkeeping,
//! and the decision logic of the fetch pipeline. Network transport, SQL,
//! and vendor SDK calls stay outside; the library states what it relies on
//! from those through narrow trusted declarations.

pub mod auth;
pub mod category_json;
pub mod config;
pub mod data_url;
pub mod document;
pub mod errors;
pub mod hashing;
pub mod http_response;
pub mod ipfilter;
pub mod keys;
pub mod lru_cache;
pub mod moderation;
pub mod pipeline;
pub mod queue;
pub mod rekognition;
pub mod resize;
pub mod rpc;
pub mod storage;
pub mod store;
pub mod strings;
pub mod urls;
pub mod video_task;
