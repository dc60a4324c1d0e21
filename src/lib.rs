//! Usage monitoring for a metered model API: endpoint resolution, query
//! windows, response normalization, quota alerts and tray summaries.
pub mod aggregate;
pub mod client;
pub mod text;
pub mod tray;
pub mod types;
pub mod window;
