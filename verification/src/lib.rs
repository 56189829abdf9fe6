//! A client of the Argo CD API: it reads applications from an Argo CD server
//! and turns the API's messages into a flat, easy-to-read application model.
pub mod client;
pub mod field_laws;
pub mod laws;
pub mod mapping;
pub mod models;
pub mod proto;
mod text;

pub use client::ArgoClient;
pub use models::{Application, HealthStatus, SyncStatus};
