//! Paged browsing of a remote trip dataset: the navigation strip, the wire
//! form of the three queries, and the controller that runs one search.

pub mod client;
pub mod controller;
pub mod display;
pub mod pagination;
pub mod query;
pub mod text;
pub mod trip;
