//! Text injection engine: strategy planning, orchestration, clipboard
//! transactions, synthetic typing, accessibility-tree search and the
//! accessibility writer, each stated and proved over plain values.
pub mod text;
pub mod strategy;
pub mod config;
pub mod orchestrator;
pub mod clipboard;
pub mod typist;
pub mod editor;
pub mod locator;
pub mod writer;
pub mod ipc;
pub mod service;
pub mod prompt;
pub mod gui_config;
