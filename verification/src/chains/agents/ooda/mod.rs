//! OODA agents: observe, orient, decide, act.

/// All the steps of the loop in a single agent
pub mod one_step;

/// One agent per step of the loop
pub mod multistep;
