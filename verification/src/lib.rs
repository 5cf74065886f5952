//! Client logic and Telegram bridge rules for Tzibbur groups.

pub mod backoff;
pub mod bridge;
pub mod catchup;
pub mod constants;
pub mod crypto;
pub mod error;
pub mod http;
pub mod json;
pub mod laws;
pub mod models;
pub mod numbers;
pub mod outbox;
pub mod pages;
pub mod pending;
pub mod reconcile;
pub mod seal;
pub mod session;
pub mod socket;
pub mod sorting;
pub mod store;
pub mod sync;
pub mod text;
pub mod validation;
pub mod wire;
pub mod ws;
