//! The setup wizard: what each of its screens shows, and where each click leads.

pub mod flow;
pub mod provision;
pub mod quick;
pub mod start_run_ui;
pub mod views;
