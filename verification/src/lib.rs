//! Sweech: applets, manifests and the rules that tie them together.
pub mod applet;
pub mod auth;
pub mod commands;
pub mod config;
pub mod context;
pub mod error;
pub mod handler;
pub mod manifest;
pub mod order;
pub mod pipeline;
pub mod query;
pub mod response;
pub mod scanner;
pub mod text;
pub mod validator;
