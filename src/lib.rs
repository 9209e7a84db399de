//! Declarative provisioning of a tmux workspace: a configuration tree is turned
//! into the ordered commands that build its session, windows and panes, and a
//! small state machine decides, command outcome by command outcome, what runs next.

pub mod apply;
pub mod args;
pub mod commands;
pub mod config;
pub mod hooks;
pub mod lemmas;
pub mod paths;
pub mod session;
pub mod text;
