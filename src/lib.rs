//! A message-driven user-provisioning pipeline: user-creation requests arrive
//! on the `user.request` queue, are decoded and checked, and the resulting
//! records are handed to a document store.
//!
//! The library holds every decision of the pipeline; the process around it
//! performs the network work and reports each outcome back.
pub mod broker;
pub mod config;
pub mod handler;
pub mod json;
pub mod payload;
pub mod store;
pub mod text;
