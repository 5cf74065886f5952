//! What the library is for, said of its operations as a whole: for each, what a result has to
//! satisfy, whatever the inputs.

pub mod account;
pub mod answers;
pub mod arrivals;
pub mod bot;
pub mod cache;
pub mod commands;
pub mod common;
pub mod connection;
pub mod database;
pub mod errors;
pub mod forwarding;
pub mod groups;
pub mod input;
pub mod keys;
pub mod members;
pub mod outbox;
pub mod page;
pub mod phones;
pub mod posting;
pub mod queue;
pub mod receiving;
pub mod replies;
pub mod reports;
pub mod requests;
pub mod results;
pub mod rows;
pub mod setup;
pub mod signing_in;
pub mod tables;
pub mod text;
pub mod upkeep;
pub mod writing;
