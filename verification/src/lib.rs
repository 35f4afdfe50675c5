#![allow(deprecated)]
//! Decision logic of a Discord guild bot: message-edit and deletion logs,
//! voice-channel notices, a rotating game-server status line, and an HTTP
//! relay that forwards messages and GitHub push summaries into channels.

pub mod config;
pub mod text;
pub mod decimal;
pub mod embed;
pub mod events;
pub mod guild_cache;
pub mod attachments;
pub mod status;
pub mod web;
