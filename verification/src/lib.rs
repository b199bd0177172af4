//! Composition, layout bookkeeping and action routing for a terminal
//! user interface, with every state transition stated and proved.

pub mod action;
pub mod app;
pub mod backend;
pub mod bindings;
pub mod component;
pub mod components;
pub mod conf;
pub mod directory;
pub mod error;
pub mod fps;
pub mod input;
pub mod keynames;
pub mod keys;
pub mod layout;
pub mod pages;
pub mod list;
pub mod render;
pub mod scroll;
pub mod text;
