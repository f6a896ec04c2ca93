//! Core logic of a newsletter service: parsing and verification of Basic
//! credentials, resolution of confirmed subscribers, and batched dispatch of
//! one message per recipient, with per-recipient failures absorbed.

pub mod auth;
pub mod configuration;
pub mod dispatch;
pub mod domain;
pub mod newsletters;
pub mod secret;
pub mod startup;
pub mod subscriptions;
pub mod subscriptions_confirm;
pub mod utils;
