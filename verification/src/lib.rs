//! Control logic of a pneumatic telepuppet: the actuator state machine,
//! the byte protocols spoken over the websocket and to the puppet thread,
//! and the pure decisions of the servo and motor drivers.

pub mod actuator;
pub mod config;
pub mod hardware;
pub mod orientation;
pub mod puppet;
pub mod rig;
pub mod rpi;
pub mod server;
pub mod show;
pub mod soft_error;
pub mod text;
pub mod ytchat;
