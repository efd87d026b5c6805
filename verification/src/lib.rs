//! Account, session and event-bus logic of the metadata server.

pub mod proto;
pub mod aes_wrapper;
pub mod validate;
pub mod session;
pub mod dao;
pub mod config;
pub mod text;
pub mod event_bus;
pub mod handler;
