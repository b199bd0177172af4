//! The pages of the application.

pub mod blog;
pub mod chat;
pub mod filebrowser;
pub mod home;
pub mod login;
pub mod music;
pub mod notfound;
pub mod parts;
pub mod posts;
pub mod setting;
pub mod settings;
pub mod signup;
pub mod template;
pub mod visualizer;
pub mod worldmap;
