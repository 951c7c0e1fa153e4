pub mod file_display;
pub mod text_input;
