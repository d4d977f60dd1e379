//! Core of a peer-to-peer data-transfer utility: endpoints are named by
//! encryption keys, not by addresses.
//!
//! The crate holds the decisions of the workflow and none of its I/O:
//!
//! * [`encoding`]: the textual form of keys;
//! * [`identity`]: keys, key pairs and peer identities;
//! * [`negotiation`]: waiting for the transport layer's connection info;
//! * [`session`]: the listener and initiator sessions, as a state machine
//!   that names the next transport call and takes its outcome back;
//! * [`course`]: what holds of a session over a run of many steps;
//! * [`run`]: what the commands do, a text to print or a session to run;
//! * [`opt`]: the five user-facing commands.

pub mod course;
pub mod encoding;
pub mod identity;
pub mod negotiation;
pub mod opt;
pub mod run;
pub mod session;
