//! Verified policy, allocation and parsing core of the OpenWorkspace API.

pub mod activation;
pub mod audit;
pub mod auth;
pub mod db;
pub mod docker;
pub mod effective_context;
pub mod health;
pub mod host_port;
pub mod instance_net;
pub mod metrics;
pub mod monitor;
pub mod network_qos;
pub mod openapi;
pub mod persistent_volume;
pub mod proc;
pub mod quota;
pub mod route_writer;
pub mod routes;
pub mod settings;
pub mod text;
