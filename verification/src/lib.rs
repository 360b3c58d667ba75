//! Direction-to-filter steering for block-based binaural rendering.
//!
//! Once per audio block the steering loop takes the position of the sound
//! source, decides whether the head-related filter has to be fetched and
//! installed anew, and hands the block to the convolution engine. The loop is
//! written as a state machine: it tells its caller what to do next, and the
//! caller reports back what happened.

pub mod direction;
pub mod scratch;
pub mod engine;
pub mod protocol;
pub mod steering;
pub mod laws;
