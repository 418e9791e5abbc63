//! Decision core of a real-time microphone pitch tracker.
//!
//! A capture stream delivers chunks of samples; an analysis loop turns them
//! into a level and a pitch estimate that readers poll. This crate holds the
//! decisions of that pipeline: which device a selector means, how a stream
//! is sized, what the loop does next, which samples a measurement looks at,
//! what becomes of a measured frequency, and how a session starts and stops.
//! It also holds the song catalogue and the choice of a key for a song.
//!
//! Everything here works on integers, strings and plain containers. Sample
//! values are carried opaquely, and single-precision numbers that a decision
//! depends on are held by their IEEE-754 bit patterns. The arithmetic on
//! samples, the devices and the threads are the caller's.

pub mod analyzer;
pub mod bits;
pub mod capture;
pub mod device;
pub mod error;
pub mod fit;
pub mod note;
pub mod pitch;
pub mod session;
pub mod songs;
pub mod text;
pub mod window;
