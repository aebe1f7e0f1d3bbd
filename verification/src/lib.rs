//! Runtime core of an interactive terminal application: a merged event
//! queue, a component contract, a bounded action-chain dispatcher, a model of
//! the terminal session, and the render/dispatch loop that ties them together.

pub mod action;
pub mod event;
pub mod component;
pub mod dispatch;
pub mod home;
pub mod tui;
pub mod app;
pub mod config;
pub mod keys;
