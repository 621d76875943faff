//! Controllers for a car driven over a line-based telemetry connection: the
//! lines received are gathered, taken apart and turned into throttle and
//! brake commands.
pub mod fields;
pub mod reader;
pub mod command;
pub mod traffic;
pub mod level1;
pub mod level2;
pub mod level4;
pub mod level5;
