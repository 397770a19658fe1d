//! Core logic of a terminal dashboard for a fleet of serverless functions.
//!
//! The library owns the application's data model and the logic that drives
//! it: the single authoritative `State`, the `Action` protocol that requests
//! transitions, the worker that resolves actions into new states, the page
//! components that turn key presses into actions, and the text and metric
//! processing behind the views.  Terminal drawing, signal handling and the
//! calls to the cloud APIs live outside this crate; they exchange plain
//! values with the functions here.

pub mod component;
pub mod fuzzy;
pub mod keys;
pub mod metrics;
pub mod model;
pub mod pages;
pub mod session;
pub mod termination;
pub mod text;
pub mod triggers;
pub mod worker;
