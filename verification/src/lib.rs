//! Foundry: the rules behind a small tool that runs local development
//! environments as Docker containers described by a `foundry.yaml` file.
//!
//! The crate holds what the tool decides: how a project file's services are
//! normalised into images, environments and mount points, how containers,
//! networks and labels are named, which containers are started in which
//! order, and how results are reported. Talking to the Docker daemon, reading
//! files and parsing arguments is left to the program that uses the crate.

pub mod cli;
pub mod text;
pub mod string_map;
pub mod error;
pub mod config;
pub mod docker;
pub mod up;
pub mod up_steps;
pub mod listing;
pub mod laws;

