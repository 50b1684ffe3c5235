//! Document artifact collaboration engine.
//!
//! Stores versioned text documents, applies offset-addressed edits under
//! optimistic concurrency control, anchors review comments to character
//! ranges, mediates a propose/accept/reject suggestion workflow, and offers
//! offset-precise search. Also provides the validators and response
//! formatters used by the surrounding tool layer.

pub mod hash;
pub mod anchor;
pub mod artifacts;
pub mod engine;
pub mod messages;
pub mod protocol;
pub mod search;
pub mod status;
pub mod strfmt;
pub mod terminal;
pub mod text;
