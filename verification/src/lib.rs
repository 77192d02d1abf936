//! Logic of a rotary-encoder driven LED strip controller with a menu screen.

pub mod draw;
pub mod encoder;
pub mod led_driver;
pub mod led_scal_fn;
pub mod menu;
pub mod menu_display_fn;
pub mod pause;
pub mod screen;
