//! Verified core of a desktop system-configuration tool: the actions it can
//! run (systemd units, rpm-ostree packages and kernel arguments, user groups),
//! the runners that execute queues of them, the YAML page model that declares
//! them, and the decisions of the task queue and the elevated helper process.
//!
//! Everything that touches the operating system (processes, files, D-Bus,
//! the GUI) lives in the application crate under `app/`, which hands plain
//! values to the functions here.
use vstd::prelude::*;

pub mod text;
pub mod command;
pub mod action_state;
pub mod dbus_query;
pub mod user_context;
pub mod systemd;
pub mod rpm_ostree;
pub mod user_group;
pub mod action;
pub mod action_runner;
pub mod laws;
pub mod pages;
pub mod run_machine;
pub mod elevated;
pub mod task_book;
pub mod task_queue;
pub mod presentation;
pub mod batch;
pub mod action_manager;
pub mod desktop_assets;

verus! {

} // verus!
