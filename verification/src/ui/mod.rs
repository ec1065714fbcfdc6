pub mod menu;
pub mod text;
