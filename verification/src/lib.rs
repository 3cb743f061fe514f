//! Verified core of the GQLForum backend: cookie signing, sessions,
//! permissions, account decisions and the row-to-model rules of the forum.
pub mod authorization;
pub mod crypto;
pub mod cookies;
pub mod session;
pub mod startup;
pub mod text;
pub mod authentication;
pub mod account;
pub mod forum;
pub mod client;
pub mod configuration;
pub mod topics;
