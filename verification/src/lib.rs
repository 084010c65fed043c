//! A client library for the Kenya Revenue Authority (KRA) API.

pub mod auth;
pub mod checker;
pub mod client;
pub mod customs;
pub mod error;
pub mod etims;
pub mod excise;
pub mod filing;
pub mod json;
pub mod pin;
pub mod prn;
pub mod tcc;

pub use client::{Environment, GavaConnectClient};
pub use error::GavaConnectError;
