//! Decision logic of a daemon that waits for a Wake-on-LAN magic packet and then starts a
//! target program in the active desktop session.

pub mod packet;
pub mod shutdown;
pub mod controller;
pub mod interface;
pub mod config;
pub mod launch;
