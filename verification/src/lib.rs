//! Turns an Android phone into a Kubernetes worker node.
pub mod brokers;
pub mod bytes;
pub mod config;
pub mod error;
pub mod exposers;
pub mod models;
pub mod paths;
pub mod services;
pub mod status;
pub mod text;
