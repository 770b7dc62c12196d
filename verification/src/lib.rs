//! Request and response models for the Telegram Bot API, with the local
//! validation rules that run before a request is sent.

pub mod error;
pub mod text;
pub mod common;
pub mod chat;
pub mod chat_member;
pub mod json;
pub mod bot;
pub mod file;
pub mod command;
pub mod message;
pub mod gift;
pub mod validation;
pub mod ephemeral;
pub mod community;
pub mod advanced;
