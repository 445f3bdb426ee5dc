pub mod editor;
pub mod text_box;
