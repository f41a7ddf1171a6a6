//! A terminal system monitor's core: the tab state machine, the event
//! dispatch of the main loop, the per-view metric caches and the sorted
//! process table.

pub mod app;
pub mod cpu;
pub mod event;
pub mod gauge;
pub mod metrics;
pub mod order;
pub mod overview;
pub mod processes;
pub mod tab;
pub mod text;
