pub mod app;
pub mod assign;
pub mod commit_flow;
pub mod dispatch;
pub mod display;
pub mod input;
pub mod keymap;
pub mod laws;
pub mod model;
pub mod overlay;
pub mod panel;
pub mod selection;
pub mod status;
pub mod steps;
pub mod text;
pub mod view;
pub mod view_model;
