//! Tone channels for a DDS tone generator driven over a serial line.
//!
//! The [`table`] holds the active channels (frequency in millihertz and
//! strength), at most ten, one per frequency. The [`dds`] session turns each
//! request into the three-byte [`protocol`] message that announces it and
//! changes the table only once that message was sent. [`note`] maps a
//! frequency to its equal-tempered note id. The remaining modules hold the
//! operator's side: the main screen's keys ([`session`]), a one-line text
//! field ([`input`]), the form for hand-made messages ([`manual`]) and the
//! decimal numbers typed into it ([`text`]).
pub mod dds;
pub mod input;
pub mod manual;
pub mod note;
pub mod protocol;
pub mod session;
pub mod table;
pub mod text;
