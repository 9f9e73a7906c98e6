//! Verified core of the LaminarDB pipeline exerciser.

pub mod decimal;
pub mod binary64;
pub mod text;
pub mod phase7_stress;
pub mod types;
pub mod phase8_v012;
pub mod phase10_sql_ext;
pub mod tui;
pub mod pipeline_view;
pub mod phase5_cdc;
pub mod history;
pub mod generator;
pub mod checks;
pub mod phase11_subs;
pub mod cli;
