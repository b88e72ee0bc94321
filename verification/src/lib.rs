//! Event-triggered notification relay.
//!
//! One storage-change event comes in; the library extracts the region, the
//! bucket name and the object key from it, resolves the region for the
//! messaging client, and drives three remote operations — create a topic,
//! subscribe a recipient, publish a message — as a step-by-step protocol.
//! The caller performs each remote call and hands the outcome back, so the
//! decisions (what to call next, when to skip the publish, what the final
//! response holds) are all verified here.

pub mod event;
pub mod handler;
pub mod json;
