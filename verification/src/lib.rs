//! A client library for searching a public anime catalog: it builds the
//! request URL, models the catalog entries, formats search results as
//! terminal text, and drives the interactive two-tab result viewer as a
//! verified state machine.

pub mod client;
pub mod model;
pub mod panes;
pub mod render;
pub mod strutil;
pub mod viewer;
