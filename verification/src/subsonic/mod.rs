//! Subsonic data: the domain model, the commands of the client thread and
//! what the client thread does with each command and each reply.
pub mod client;
pub mod commands;
pub mod models;
pub mod urls;
