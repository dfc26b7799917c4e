//! Core logic of a small daemon that keeps a desktop session from going idle
//! while audio is playing.
//!
//! The daemon watches the audio subsystem's event stream, coalesces bursts of
//! change notifications, queries whether any stream is actively playing, and
//! holds or releases a compositor idle-inhibitor object accordingly.  This
//! crate holds the decision logic: which advertised compositor globals to bind
//! ([`registry`]), when to create or destroy the inhibitor ([`inhibit`]), how
//! to coalesce noisy wake signals ([`debounce`]), which event lines count as
//! wake signals ([`events`]), and how a stream listing is read ([`audio`]).
//! The surrounding process performs the socket, subprocess and timer work and
//! feeds the results back in as plain values.

pub mod audio;
pub mod debounce;
pub mod events;
pub mod inhibit;
pub mod registry;
pub mod text;
