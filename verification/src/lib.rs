use vstd::prelude::*;

pub mod app_state;
pub mod cleanup;
pub mod config;
pub mod json;
pub mod logger;
pub mod memory;
pub mod outcomes;
pub mod powershell;
pub mod services;
pub mod system;
pub mod telemetry;
pub mod text;
pub mod time_win;
pub mod types;
pub mod ui;
pub mod update;
pub mod uwp;
pub mod windows_update;

verus! {

} // verus!
