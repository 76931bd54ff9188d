//! A minimal application-shell library: a pure greeting formatter exposed to a
//! UI layer, and a startup sequencer that brings the primary window into a
//! visible, focused state before the host event loop starts serving requests.

pub mod greeting;
pub mod startup;
