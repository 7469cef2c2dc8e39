//! The state and the decisions of an MPRIS media session.
pub mod models;
pub mod text;
pub mod mpris;
pub mod remote;
pub mod controller;
pub mod laws;
pub mod content_laws;
