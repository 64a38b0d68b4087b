//! Lifecycle and forwarding rules of an embeddable tunnel agent.

pub mod address;
pub mod config;
pub mod connect;
pub mod error;
pub mod http;
pub mod listener;
pub mod listener_builder;
pub mod logging;
pub mod outside;
pub mod registry;
pub mod session;
pub mod tcp;
pub mod text;
pub mod tls;
pub mod tunnel;
pub mod tunnel_builder;
