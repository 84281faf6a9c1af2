//! A small graph that is changed only through reversible commands, and a
//! history of those commands with linear undo and redo.
pub mod graph;
pub mod commands;
pub mod history;
pub mod example;
