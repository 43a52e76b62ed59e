//! Failures of a Model Context Protocol server: how each layer names them,
//! and how those of the router reach a client as a code and a message.

pub mod errors;
