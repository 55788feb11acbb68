//! The core of a file-synchronization client: what to watch, what to tell
//! the remote service, what to transfer and what to answer on the local
//! command bus.
//!
//! Nothing here touches the disk, the network or a clock. Each component
//! says what is to be done next and takes what came of it; the program
//! around this library does the work.

pub mod cli;
pub mod command;
pub mod config;
pub mod event;
pub mod indexer;
pub mod lazy;
pub mod paths;
pub mod remote;
pub mod server;
pub mod socket_listener;
pub mod storage_manager;
pub mod synchronizer;
pub mod text;
pub mod watcher;
