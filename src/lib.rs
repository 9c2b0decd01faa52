//! Native backend of the skriv editor shell: launch-context capture,
//! command-line launcher installation, menu routing and single-instance
//! forwarding, as verified decisions that a host runtime carries out.
pub mod instance;
pub mod launch;
pub mod launcher;
pub mod menu;
pub mod text;
