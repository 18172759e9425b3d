//! Client-side logic for a music provider's download API: resolving a link to
//! a media kind and id, signing descriptor requests, naming audio formats,
//! undoing the payload cipher, and sequencing the per-track steps of a
//! download.
//!
//! Nothing here touches the network or the disk. Requests are handed out as
//! plain values and answers are taken back as plain values, so that every
//! decision is made by code whose contract is proved.

pub mod api;
pub mod download;
pub mod error;
pub mod primitives;
pub mod text;
