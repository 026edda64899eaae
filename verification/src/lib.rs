//! Core of a card editor's text field: marker substitution, the text it
//! renders, and the two-mode field that holds it.

pub mod editable;
pub mod editor;
pub mod substitute;
pub mod text;
pub mod tokens;
