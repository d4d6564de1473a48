use vstd::prelude::*;

verus! {

/// How a column title is placed within its fixed-width column.
#[derive(Clone, Copy, Debug, PartialEq, Eq, Structural)]
pub enum Alignment {
    Left,
    Center,
    Right,
}

/// Read-only settings consumed by the input and render dispatchers.
pub struct Config {
    /// Redraw and input-poll cadence, in milliseconds.
    pub tick_delay: u64,
    /// Upper bound on the number of messages kept in the history.
    pub maximum_messages: usize,
    /// Whether the message table has a leading time column.
    pub date_shown: bool,
    /// strftime-style format of message timestamps.
    pub date_format: String,
    /// Placement of the username column title.
    pub username_alignment: Alignment,
    /// Fixed width of the username column.
    pub maximum_username_length: u16,
    /// Whether `i` may enter the text-entry mode.
    pub input: bool,
    /// Author of locally submitted messages.
    pub username: String,
}

} // verus!
