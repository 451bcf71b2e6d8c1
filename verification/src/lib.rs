//! A feed-aggregation library: it normalizes syndication documents into a
//! stable domain model, keeps them in a table store with upsert and cascade
//! semantics, and drives the fetch and refresh protocol as a state machine
//! whose transitions are proved against their contracts.

pub mod app;
pub mod config;
pub mod feed;
pub mod handler;
pub mod repo;
pub mod text;
pub mod ui;
pub mod util;
