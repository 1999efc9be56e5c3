//! A relay agent: joins a network, registers itself once with a backend, then
//! polls a configuration endpoint and drives one relay to the state it returns.
//!
//! The library holds the agent's logic as values and pure transitions; the
//! hardware, the network and the clock are driven by the caller.
pub mod wire;
pub mod dto;
pub mod relay;
pub mod orchestrator;
