//! Input decision logic for the orzma terminal host: IME composition,
//! copy-mode keys, mouse gestures, webview routing, and the policies that
//! decide which surface receives keyboard and mouse input.

pub mod action;
pub mod ime;
pub mod keys;
pub mod terminal;
pub mod input_gates;
pub mod copy_mode;
pub mod tmux_gesture;
pub mod selection;
pub mod pointer;
pub mod separator;
pub mod hover;
pub mod webview_route;
pub mod preload;
pub mod inline_webview;
pub mod wheel;
pub mod shortcuts;
pub mod geometry;
pub mod font;
