//! Administrative action dispatch for a bot-listing platform.
//!
//! Staff run privileged actions on the bots and teams of the list. This
//! library holds the catalog of those actions, the parsers for their
//! fields, the guard that lets only staff through, the two front-ends that
//! collect an action (a dialog in steps, and a structured request), the
//! engine that carries an action out on the rows of the store, and the
//! wording of what is reported back. It talks to no platform and to no
//! database: it takes plain values and gives plain values back.

pub mod action;
pub mod catalog;
pub mod direct;
pub mod dispatch;
pub mod engine;
pub mod error;
pub mod events;
pub mod fields;
pub mod flow;
pub mod models;
pub mod parse;
pub mod report;
pub mod rolesync;
pub mod staffapps;
pub mod store;
pub mod text;
