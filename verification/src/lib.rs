//! Schedules a shell command as a task, keeps track of its lifecycle in a
//! store and answers status queries by identifier or by name.

pub mod cli;
pub mod environment;
pub mod error;
pub mod execution;
pub mod id_generator;
pub mod memory;
pub mod model;
pub mod ports;
pub mod report;
pub mod row;
pub mod service;
pub mod settings;
pub mod store;
pub mod text;
