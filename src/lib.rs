//! Core of a tray-resident task reminder: the credential cache that guards
//! calls to the remote task service, the reminder-interval settings, the task
//! data model, and the periodic popup scheduler.

pub mod auth;
pub mod setting;
pub mod window_manager;
pub mod task_manager;
pub mod json;
