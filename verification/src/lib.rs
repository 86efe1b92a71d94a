//! Two-way calendar synchronisation between Google and iCloud calendars:
//! the planner that decides what to write, the content hash it compares,
//! the control-plane state machine, and the helpers around them.

pub mod policy;
pub mod text;
pub mod event;
pub mod event_hash;
pub mod planner;
pub mod planner_laws;
pub mod config;
pub mod config_check;
pub mod numtext;
pub mod app;
pub mod app_state;
pub mod app_events;
pub mod app_laws;
pub mod providers;
pub mod google_types;
pub mod store;
pub mod engine;
pub mod engine_apply;
pub mod engine_report;
pub mod engine_plan;
pub mod daemon;
pub mod service;
pub mod dashboard;
pub mod tray_status;
pub mod runtime;
pub mod setup;
pub mod dashboard_rows;
pub mod dashboard_panels;
pub mod oauth;
pub mod db_export;
pub mod exports;
pub mod prompts;
pub mod prompt_laws;
pub mod engine_laws;
pub mod text_laws;
pub mod store_laws;
