//! Stevedore: the verified core of a keyboard-driven terminal UI for Docker.
pub mod actor;
pub mod actor_laws;
pub mod app;
pub mod clock;
pub mod container;
pub mod docker;
pub mod docker_laws;
pub mod event_loop;
pub mod input;
pub mod key_laws;
pub mod layout;
pub mod laws;
pub mod message;
pub mod model;
pub mod model_laws;
pub mod order;
pub mod paint;
pub mod pane;
pub mod report_laws;
pub mod stats;
pub mod text;
pub mod text_laws;
pub mod trace_laws;
pub mod units;
pub mod ui;
pub mod view_laws;
