//! The desktop workbench: what it remembers, what it asks of the runtime and what
//! it says. Drawing is left to the window.

pub mod actions;
pub mod activity;
pub mod attention;
pub mod frames;
pub mod history;
pub mod layouts;
pub mod models;
pub mod navigation;
pub mod places;
pub mod retained;
pub mod views;
pub mod workbench;
pub mod workers;
