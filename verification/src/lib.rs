//! Core logic of a multi-tenant e-commerce backend: user and profile
//! management, a product catalog, a shopping cart with line-item totals,
//! and a registry of orchestrator applications that receive user-sync
//! notifications.
//!
//! The data model and every rule that decides, validates or computes lives
//! here, verified. Database access, HTTP and JSON serialisation stay in the
//! surrounding application, which hands this library plain values.

pub mod app_error;
pub mod auth;
pub mod cart;
pub mod clock;
pub mod formatter;
pub mod ids;
pub mod keycloak;
pub mod orchestrator;
pub mod pagination;
pub mod product;
pub mod settings;
pub mod tenant;
pub mod text;
pub mod user;
pub mod validation;

