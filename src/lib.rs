//! Host-side core of a motion controller server: colour model, LED and rumble
//! effect engine, controller runtime state, HID report formats, transport
//! correlation and the decisions of the periodic tasks.

pub mod color;
pub mod models;
pub mod report;
pub mod led_effects;
pub mod rumble_effects;
pub mod controller;
pub mod api;
pub mod tasks;
pub mod discovery;
pub mod snapshot;
