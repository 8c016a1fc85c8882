//! The decisions of a local proxy session, verified.
//!
//! A session takes a proxy node and the user's settings, makes the
//! configuration for the proxy engine, and says step by step what the host
//! has to do: spawn the engine, check that it lives, point the system
//! proxy at it, and undo all of it in the right order. The host does the
//! work on files, processes and system settings and reports what happened;
//! nothing in here touches them.
//!
//! - [`synthesis`] makes the engine configuration of [`config`].
//! - [`singbox`] holds the session and decides on every event.
//! - [`system_proxy`] describes the proxy settings of the host.
//! - [`subscriptions`] keeps the list of subscriptions, and [`links`]
//!   reads the links they deliver.
//! - [`synthesis_proofs`] and [`singbox_proofs`] state what holds of every
//!   configuration and of every run of events.

pub mod config;
pub mod links;
pub mod settings;
pub mod singbox;
pub mod singbox_proofs;
pub mod subscriptions;
pub mod synthesis;
pub mod synthesis_proofs;
pub mod system_proxy;
pub mod text;
