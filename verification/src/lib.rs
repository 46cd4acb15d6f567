//! A personal blog and newsletter platform: markdown-backed articles with
//! TOML front matter, and a double opt-in newsletter subscription flow with
//! token-based verification and unsubscription, behind a thin
//! authentication layer. The subscription lifecycle is specified as
//! transitions on a store model and proved; the surrounding web layer feeds
//! these modules plain values and renders what they return.

pub mod article;
pub mod auth_stuff;
pub mod configuration;
pub mod email_client;
pub mod handlers;
pub mod repository;
pub mod service;
pub mod subscriber;
pub mod text;
pub mod views;
