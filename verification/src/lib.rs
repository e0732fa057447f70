//! Core of a command-line client for a relay-based social network.
//!
//! Two parts carry the weight: `cache`, a keyed store of fetched events and
//! profiles, and `session` with `watch` and `names`, the decisions of the live
//! watcher that relays notifications to a webhook. Around them stand the
//! operator's configuration and keys, and the smaller rules of the single
//! commands. Nothing here touches the network or the disk: callers do that
//! and hand over plain values.

pub mod cache;
pub mod config;
pub mod dm;
pub mod event;
pub mod keys;
pub mod lists;
pub mod names;
pub mod profile;
pub mod session;
pub mod tags;
pub mod text;
pub mod timeline;
pub mod upload;
pub mod utils;
pub mod vanity;
pub mod watch;
pub mod zap;
