//! Domain vocabulary of the marketplace around the processing core:
//! statuses, request shapes and query filters, one module per area.

pub mod admin;
pub mod ai;
pub mod auth;
pub mod bids;
pub mod documents;
pub mod extraction;
pub mod hiring;
pub mod marketplace;
pub mod notifications;
pub mod profiles;
pub mod projects;
pub mod rfis;
pub mod settings;
pub mod subcontractors;
pub mod tasks;
pub mod tenders;
