//! Decision logic of a Telegram bot that posts updates, gallery items and
//! translations to a personal website.

pub mod text;
pub mod locale;
pub mod image;
pub mod cli;
pub mod command;
pub mod gallery;
pub mod privkey;
pub mod kvstore;
pub mod models;
pub mod translation;
pub mod assistant;
pub mod user;
pub mod state;
pub mod bot;
pub mod upload;
pub mod registry;
pub mod poll;
pub mod dialog;
pub mod gallery_flow;
pub mod translation_flow;
