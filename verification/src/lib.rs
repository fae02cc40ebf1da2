//! A computer-use action translator: converts abstract GUI-interaction
//! requests (screenshot, click, drag, scroll, type, key press) into
//! concrete input-injection commands for external automation tools,
//! scaling coordinates between a fixed logical viewport and the real
//! display, and gating destructive key combinations behind an explicit
//! confirmation flag.

pub mod action;
pub mod buttons;
pub mod command;
pub mod dispatch;
pub mod display;
pub mod errors;
pub mod features;
pub mod geometry;
pub mod json;
pub mod keys;
pub mod locate;
pub mod process;
pub mod screenshot;
pub mod text;
