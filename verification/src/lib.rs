//! Validated ingestion of loosely-typed JSON documents that describe
//! blockchain configuration parameters, genesis and snapshot states,
//! message-relay receipts and block proofs.
//!
//! Every decoder walks the document through a path-tracked accessor, so a
//! failure always names the exact path that produced it; numeric fields
//! resolve across the encodings producers use; and a per-parameter
//! mandatory policy decides whether an absent configuration parameter is
//! fatal or silently omitted. Every function is specified against a
//! mathematical model of the input, and the stated laws about mandatory
//! and optional parameters are proved, not tested.

pub mod err;
pub mod json;
pub mod num;
pub mod codec;
pub mod path;
pub mod types;
pub mod params;
pub mod policy;
pub mod assoc;
pub mod decode;
pub mod blockid;
pub mod valset;
pub mod arrays;
pub mod config;
pub mod state;
pub mod remp;
pub mod blockproof;
pub mod laws;
