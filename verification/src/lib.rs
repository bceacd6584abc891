//! Control logic for a pair of AirPods on a Linux host.
pub mod aap;
pub mod address;
pub mod audio_route;
pub mod autoconnect;
pub mod ble;
pub mod bluez;
pub mod cache;
pub mod cli;
pub mod clock;
pub mod config;
pub mod ctl_proto;
pub mod ctl_server;
pub mod ear_media;
pub mod handoff;
pub mod json;
pub mod laws;
pub mod models;
pub mod mpris;
pub mod rejoin;
pub mod settings;
pub mod state;
pub mod store;
pub mod text;
