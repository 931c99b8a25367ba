//! Topology compiler for local multi-cluster Apache Pulsar deployments.
//!
//! A validated instance configuration is expanded into an ordered graph of
//! services (ZooKeeper replicas, one-shot jobs, bookies, brokers, proxies)
//! and that graph is serialised into a Docker Compose document.
//!
//! * [`instance_config`] holds the configuration and the rules it has to meet,
//!   [`quorum`] and [`ports`] what is derived from it for each cluster.
//! * [`service`] names the services, [`graph`] builds the service graph, and
//!   [`ordering`] and [`naming`] prove that the graph is a start-up order in
//!   which no two services share a name.
//! * [`scripts`] and [`render`] write the entry of one service,
//!   [`docker_compose`] the whole descriptor, and [`layout`] proves how the
//!   descriptor is made up.
//! * [`commands`] and [`defaults`] hold what the command line decides before
//!   it turns to Docker Compose and to the files it keeps.

pub mod text;
pub mod instance_config;
pub mod quorum;
pub mod ports;
pub mod service;
pub mod graph;
pub mod ordering;
pub mod naming;
pub mod scripts;
pub mod render;
pub mod docker_compose;
pub mod layout;
pub mod commands;
pub mod defaults;
