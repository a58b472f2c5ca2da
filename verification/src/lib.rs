//! A serial session controller: the state of one serial connection, the
//! commands that change it, the decisions of the background reader, and the
//! controls that a front-end may offer in each state.
//!
//! The library performs no input or output itself. A host opens, clones,
//! reads and writes the device and hands each outcome to the controller,
//! which decides what the session becomes.

pub mod baud;
pub mod controller;
pub mod controls;
pub mod laws;
pub mod reader;
pub mod serial_port;
pub mod ui;
