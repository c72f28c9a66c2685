//! A small authenticated user service: signed short-lived tokens, the
//! request guard that checks them, pagination and response envelopes.
//! Storage, HTTP and configuration live outside this library; the functions
//! here take their results as plain values.

pub mod text;
pub mod token;
pub mod models;
pub mod response;
