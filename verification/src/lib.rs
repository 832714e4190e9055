//! Attendance automation for a Moodle course: announcement parsing, page
//! extraction, redirect interpretation, dialogue states and the marking sweep.

pub mod attendance;
pub mod config;
pub mod markup;
pub mod moodle;
pub mod moodle_extender;
pub mod router;
pub mod storage;
pub mod text;
