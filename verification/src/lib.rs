//! A small health-check registry service core: record storage semantics,
//! uniform response envelopes, and route dispatch, each with a verified
//! contract. Connection pooling, HTTP transport and JSON encoding live in
//! the surrounding application.

pub mod dispatch;
pub mod ids;
pub mod laws;
pub mod model;
pub mod routes;
pub mod store;
