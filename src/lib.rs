//! Audio output negotiation, a fade filter steered from other threads, and
//! the handles through which sources reach a running output stream.
pub mod fade;
pub mod config;
pub mod stream;
pub mod sample;
