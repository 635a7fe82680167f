//! An interactive file picker's engine: the path model, the relevance filter,
//! the cursor arithmetic, the catalogue of actions and the focus state machine
//! that routes input and decides which external command to run.
pub mod text;
pub mod filesystem;
pub mod tree;
pub mod numbers;
pub mod action_menu;
pub mod appdata;
pub mod background;
pub mod logs;
pub mod app;
pub mod dialog;
