//! The pieces of the end-to-end walkthrough.
//!
//! The walkthrough runs one user turn through the whole architecture. These are throwaway
//! implementations of the ports, the scripted model replies, and the narration.

pub mod gateway;
pub mod narration;
pub mod script;
pub mod support;
