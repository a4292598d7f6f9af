//! Verified core of a weekly football pool ("Stryktipset") reader.
//!
//! The library decodes a feed document -- a JSON tree holding one pool
//! round of exactly thirteen draw events -- into typed records, and
//! renders a round as lines of text: odds, implied probabilities, the
//! public's opinion, press tips and team panels.  All decoding and
//! formatting logic is verified; obtaining the document (a network
//! fetch or a file read) is left to the surrounding binary.

pub mod json;
pub mod decode;
pub mod odds;
pub mod render;
pub mod stryktipset;
