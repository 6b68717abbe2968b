//! Verified core of a terminal podcast player.
use vstd::prelude::*;

pub mod advance;
pub mod catalog;
pub mod config;
pub mod error;
pub mod events;
pub mod feed;
pub mod input;
pub mod library;
pub mod models;
pub mod opml;
pub mod playback;
pub mod queue;
pub mod queue_store;
pub mod retention;
pub mod search;
pub mod state;
pub mod stream;
pub mod text;
pub mod ui;
pub mod wsola;

verus! {
} // verus!
