//! Messages and the requests that send or change them.

pub mod common;
pub mod content;
pub mod forum;
pub mod media;
pub mod metadata;
pub mod model;
pub mod payments;
pub mod reply;
pub mod requests;
pub mod service;
pub mod uploads;
