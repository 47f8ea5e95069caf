//! A single owned wallet record with owner-gated operations.
//!
//! The record holds an unsigned balance and an owner identity. Every
//! mutation is authorized against the stored owner before it touches the
//! record; balance arithmetic never wraps. The host environment supplies
//! the authenticated caller identity explicitly on each call.

pub mod laws;
pub mod wallet;
