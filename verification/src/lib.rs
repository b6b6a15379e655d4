//! A Discord bot library: the gateway session state machine, REST request
//! builders, Discord API objects, and the decisions and caches of the brick bot.
#![allow(unused_imports)]

/// Avatar cache
pub mod avatar_cache;
/// API client
pub mod bot;
/// Caches for avatars, and composited gifs
pub mod cache;
/// Brick-bot configuration
pub mod config;
pub mod error;
/// The decisions of the brick bot
pub mod event_handlers;
/// Image editing
pub mod image_edit;
/// REST API methods
pub mod rest;
/// Discord API objects
pub mod structs;
/// Text building blocks
pub mod text;
/// The gateway session of the single-command bot
pub mod ws_api;

pub use cache::{AvatarCache, Caches, GifKey};
pub use error::BotError;
