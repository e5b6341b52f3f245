//! Driver for a Mackie Control family control surface.
//!
//! The crate translates between raw device MIDI bytes and application-level
//! events: it performs the vendor handshake (including the challenge-response
//! pairing cipher), decodes buttons and fader moves, encodes LED, fader and
//! 7-segment-display feedback, and arbitrates the motorized fader so that the
//! motor never fights the user's hand.

pub mod event;
pub mod mackie;
pub mod midi;
pub mod port;
