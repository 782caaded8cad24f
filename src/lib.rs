pub mod event;
pub mod laws;
pub mod layout;
pub mod render;
pub mod state;
mod text;
