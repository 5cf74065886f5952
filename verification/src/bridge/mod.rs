//! The Telegram bridge: one bot, every group a topic in the user's private chat with it.

pub mod accounts;
pub mod callbacks;
pub mod cards;
pub mod commands;
pub mod compose;
pub mod config;
pub mod dialogue;
pub mod directus;
pub mod format;
pub mod forward;
pub mod i18n;
pub mod miniapp;
pub mod outbound;
pub mod phone;
pub mod placeholders;
pub mod records;
pub mod reply;
pub mod reports;
pub mod runtime;
pub mod store;
