//! A Morse code training engine: a tick-based virtual clock, a symbol-buffer
//! decoder that commits characters and words on timing boundaries, an iambic
//! dual-paddle keyer scheduler, and an encoder that turns text into timed tone
//! segments for playback.
//!
//! The engine is frame-driven and does no I/O of its own: each frame it takes
//! a time delta and a batch of discrete key events, and it answers with the
//! committed text and the tone commands an audio backend would act on.

pub mod codes;
pub mod keyer;
pub mod listening;
pub mod ticker;
pub mod timing;
pub mod writing;
