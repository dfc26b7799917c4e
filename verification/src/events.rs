//! The event-source filter: which lines of the audio subsystem's event
//! stream count as wake signals.
//!
//! The external monitor prints one line per subsystem event, including noise
//! such as clients connecting to and disconnecting from the bus.  Only a
//! change event scoped to a playback ("sink-input") or capture
//! ("source-output") stream warrants re-evaluating the audio state.

use vstd::prelude::*;

verus! {

use crate::text::is_match_at;
use crate::text::match_at;

/// The prefix every relevant event line carries.
pub open spec fn change_event_prefix() -> Seq<char> {
    "Event 'change' on "@
}

/// The object kind of a playback stream.
pub open spec fn sink_input_kind() -> Seq<char> {
    "sink-input"@
}

/// The object kind of a capture stream.
pub open spec fn source_output_kind() -> Seq<char> {
    "source-output"@
}

/// A line warrants a wake signal if and only if it is a change event on an
/// object whose kind starts with `sink-input` or `source-output`.
pub open spec fn wake_line(line: Seq<char>) -> bool {
    &&& is_match_at(line, change_event_prefix(), 0)
    &&& {
        ||| is_match_at(line, sink_input_kind(), change_event_prefix().len() as int)
        ||| is_match_at(line, source_output_kind(), change_event_prefix().len() as int)
    }
}

/// Whether one line of the external event stream produces a wake signal.
///
/// Everything that is not a change event on a playback or capture stream —
/// other event kinds, other object kinds, bus connect/disconnect noise — is
/// discarded.
pub fn is_wake_event(line: &str) -> (r: bool)
    ensures
        r == wake_line(line@),
{
    let prefix = "Event 'change' on ";
    if !match_at(line, prefix, 0) {
        return false;
    }
    let off = prefix.unicode_len();
    match_at(line, "sink-input", off) || match_at(line, "source-output", off)
}

} // verus!
