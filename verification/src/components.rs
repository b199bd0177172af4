//! The widgets that pages are composed of.

pub mod clip;
pub mod controls;
pub mod editing;
pub mod filepicker;
pub mod filestats;
pub mod help;
pub mod loader;
pub mod log;
pub mod login;
pub mod menu;
pub mod mouselist;
pub mod navigation;
pub mod popup;
pub mod quit;
pub mod textinput;
pub mod toast;
pub mod wave;
