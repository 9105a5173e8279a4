//! The verified core of a system-wide audio processing daemon.

pub mod json;
pub mod text;
pub mod text_map;

pub mod conformance;
pub mod driver;

pub mod catalog;
pub mod graph;
pub mod graph_meter;
pub mod plugins;

pub mod output_device;
pub mod pipeline;
pub mod state;

pub mod apply;
pub mod capture;
pub mod chain_update;
pub mod configuration;
pub mod reconfigure;
pub mod route;
pub mod startup;

pub mod artifact;
pub mod commands;
pub mod output_profiles;
pub mod profile_commands;
pub mod rack;

pub mod devices;
pub mod metering;
pub mod response;
pub mod status;
pub mod telemetry;
pub mod transport;

pub mod ipc;
pub mod ownership;
pub mod paths;
pub mod security;
