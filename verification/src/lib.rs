//! Core of a small button-driven, screen-stack device interface.
//!
//! The library holds the verified logic: the per-button debounce/hold state
//! machine, the panel of named buttons, the views (menu, keyboard, static
//! text), the view-stack navigation protocol, and the shape display list that
//! views render into. Reading pins, the clock, and driving the physical
//! display are left to the surrounding program, which hands plain values in
//! and out.

pub mod buttons;
pub mod screen;
pub mod shape;
pub mod renderer;
pub mod view;
pub mod views;
