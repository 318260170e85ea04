//! Verified core of a trip-planning tool: currency amounts, trip data models,
//! note/participant/receipt validation, Markdown itineraries and proposal
//! file analysis.
pub mod text;
pub mod money;
pub mod stats;
pub mod models;
pub mod proposal;
pub mod note;
pub mod participant;
pub mod receipt;
pub mod markdown;
pub mod json;
pub mod time;
