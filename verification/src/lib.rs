//! A remote desktop client: what it asks the server for, what it does about the messages of the
//! server, the input of the user and the events of its window, and what it paints.
//!
//! Everything here is decided on plain values. The network, the window and the graphics device are
//! driven by the program around this library, which carries out the actions that it returns.
pub mod address;
pub mod app;
pub mod batch;
pub mod config;
pub mod error;
pub mod events;
pub mod gpu;
pub mod image;
pub mod input;
pub mod password;
pub mod plan;
pub mod run;
pub mod session;
pub mod stage;
pub mod tls;
