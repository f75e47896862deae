//! Verified interaction logic of a Material 3 widget toolkit and a Wayland
//! status bar: keyboard events and text editing, selection controls, focus
//! handling, easing syntax, color codes and the bar's event decisions.

pub mod keyboard;
pub mod pointer;
pub mod text_field;
pub mod widgets;
pub mod text;
pub mod easing;
pub mod color;
pub mod bar;
pub mod gallery;
pub mod boxed;
pub mod font;
