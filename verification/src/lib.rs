//! Link-layer frames that carry control commands for Colorlight LED-matrix
//! receiver cards.
//!
//! A frame is a destination address, a source address, a two-byte type field
//! and a payload, packed with nothing in between. The builders in
//! [`colorlight`] fill one frame per command; [`ethernet_frame`] holds the
//! frame itself and turns it into the bytes that go on the wire. Sending those
//! bytes is left to the caller.

pub mod colorlight;
pub mod ethernet_frame;
