//! Finding the display that hosts a full-screen application.
//!
//! Three sources can name the display, in this order of precedence: the
//! window that the operating system reports for the application, a stored
//! user override, and a hint in the application's own configuration file.

pub mod capture;
pub mod config_store;
pub mod file_text;
pub mod ini_file;
pub mod monitor;
pub mod target_config;
pub mod text;
pub mod window_locator;
