//! Decision logic of the Wave OS desktop shell: which registry values and
//! processes each command touches, how outcomes become replies for the web
//! front end, and what the tray menu and global hotkeys do.
//!
//! Everything here is plain data in and plain data out; the program around
//! it performs the registry, process, network and window work.

pub mod text;
pub mod command;
pub mod failure;
pub mod registry;
pub mod shell;
pub mod autostart;
pub mod process;
pub mod file_bridge;
pub mod ollama;
pub mod window;
pub mod hotkeys;
pub mod tray;
pub mod kiosk;
pub mod update;
