//! Deterministic lobby, limit, and match-coordination rules of the Crownlines
//! game server and client.
pub mod keyed;
pub mod text;
pub mod limits;
pub mod rooms;
pub mod actors;
pub mod authority;
pub mod connections;
pub mod snapshot_hub;
pub mod database;
pub mod recovery;
pub mod menu;
pub mod lifecycle;
pub mod online_connection;
pub mod connection_worker;
pub mod online_lobby;
pub mod online_lifecycle;
pub mod local_interaction;
pub mod guided;
pub mod panels;
pub mod config;
pub mod persistence;
pub mod playtest;
pub mod server_config;
pub mod ai_supervisor;
pub mod help;
