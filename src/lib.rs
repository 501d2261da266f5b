//! Decision logic of a desktop photo widget: playlist order, window geometry,
//! configuration defaults and the display controller's state machine.
pub mod geometry;
pub mod config;
pub mod controller;
pub mod paths;
pub mod playlist;
