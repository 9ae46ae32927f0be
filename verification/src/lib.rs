//! Anchor tracking engine for live-stream rooms: the platform table, the
//! anchor records, the anchor store, the asset cache's naming and pixel
//! rules, and the scheduler that merges lookup results into the store.

pub mod text;
pub mod platform;
pub mod models;
pub mod error;
pub mod store;
pub mod cache;
pub mod pixels;
pub mod lookup;
pub mod dispatch;
pub mod server;
pub mod config;
pub mod cards;
pub mod ui;
