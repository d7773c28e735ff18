//! Streaming extraction of podcast episode records from a feed's XML events.
//!
//! The feed is seen as a linear stream of structural XML events (element
//! open, element close, character data). A single forward pass turns that
//! stream into the ordered sequence of episode records, one per completed
//! `<item>` boundary. The pass is a small state machine: a cursor remembers
//! which text field the next character data belongs to, an in-progress
//! record gathers the fields, and every closing `item` tag finalizes one
//! record.

pub mod event;
pub mod extractor;
pub mod feed;
pub mod podcast;
pub mod props;
