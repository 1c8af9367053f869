//! Playback session and tunnel streaming core.
//!
//! The crate has two halves.  The playback half keeps one authoritative
//! playback state per audio session and reconciles play / pause / stop /
//! seek / next / previous commands against it, driving an abstract player
//! device and emitting session-update events for every observable change.
//! The tunnel half multiplexes JSON control messages and large binary audio
//! payloads over a single relay connection: it frames byte streams into
//! bounded packets (binary or base64 envelopes), slices them against HTTP
//! byte ranges, and honours per-request aborts.

pub mod b64;

pub mod b64codec;

pub mod cancel;

pub mod codec;

pub mod events;

pub mod handler;

pub mod json;

pub mod models;

pub mod num;

pub mod paging;

pub mod playback;

pub mod random;

pub mod ranges;

pub mod session;

pub mod tidal;

pub mod tunnel;

pub mod urls;
