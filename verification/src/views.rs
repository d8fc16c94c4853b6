//! The concrete view kinds the core drives.

pub mod helloworld;
pub mod input;
pub mod menu;

pub use helloworld::HelloWorld;
pub use input::TextInput;
pub use menu::{Menu, MenuItem, MenuSpawner};
