//! Accelerator telemetry domain: value objects, entities and aggregates, the rules of
//! the platform backends, application policies, and the state of the terminal UI.
pub mod text;
pub mod ids;
pub mod string_map;
pub mod value_objects;
pub mod entities;
pub mod events;
pub mod errors;
pub mod aggregates;
pub mod collection;
pub mod ports;
pub mod metal;
pub mod tpu;
pub mod tui;
pub mod policies;
pub mod application;
pub mod api;
pub mod nvml;
pub mod procfs;
pub mod factory;
pub mod services;
pub mod probes;
pub mod config;
pub mod attestation;
pub mod telemetry;
pub mod listing;
