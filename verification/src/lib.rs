//! The logic of a chat client: conversation state, the reactions to user and
//! server events, the connection protocol, line framing and stored settings.
//!
//! Every handler takes plain values and returns the actions that the program
//! around it performs; nothing here touches the screen, the network or a file.

pub mod controller;
pub mod effects;
pub mod event_laws;
pub mod framing;
pub mod laws;
pub mod network;
pub mod network_laws;
pub mod numbers;
pub mod outside;
pub mod protocol;
pub mod settings;
pub mod shown;
pub mod state;
pub mod step_laws;
pub mod text;
pub mod types;
pub mod ui;
pub mod view_laws;
pub mod views;
pub mod window_laws;
