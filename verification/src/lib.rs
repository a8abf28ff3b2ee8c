//! The core of a supervisor for a fleet of game servers that run in
//! containers on one host.
//!
//! The supervisor is driven by a configuration file. It starts the servers
//! that the file declares, notices when one has died, restarts servers on a
//! schedule, hands out the game ports, takes in a changed configuration
//! without stopping what runs, and can hand its containers over to its
//! successor.
//!
//! This library holds the decisions; it performs no input and no output.
//! The program around it reads the configuration, talks to the container
//! engine and to the operator, and tells the library what it has learned.
//!
//! - [`config`]: what the operator declares, and how unset settings are
//!   inherited and resolved.
//! - [`arg_builder`]: the environment of a server's container.
//! - [`server`]: one server and its container.
//! - [`server_cluster`]: the servers together, and the steps of the control
//!   loop; [`cluster_proofs`] holds what is proved of those steps.
//! - [`engine`]: what the container engine is asked and what it answers.
//! - [`schedule`] and [`clock`]: restart schedules and instants.
//! - [`shell`]: the operator's commands.
//! - [`protocol`]: the packets by which a game server is asked whether it
//!   takes players.
//! - [`ports`]: the tables of open ports that Windows hands out.
//! - [`text`], [`paths`] and [`ordered_map`]: text, paths and ordered maps.
//!
//! Every function is verified with Verus against the contract in its
//! header. The few functions marked `external_body` call into other crates;
//! their contracts are believed, and each says in its comment what it
//! believes of which call.

pub mod arg_builder;
pub mod clock;
pub mod cluster_proofs;
pub mod config;
pub mod engine;
pub mod ordered_map;
pub mod paths;
pub mod ports;
pub mod protocol;
pub mod schedule;
pub mod server;
pub mod server_cluster;
pub mod shell;
pub mod text;
