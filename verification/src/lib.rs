pub mod text;
pub mod hamachi;
pub mod app;
pub mod view;
pub mod laws;
