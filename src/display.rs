//! Presentation states derived from a note: the colour of a length counter and
//! the minimum height of a note.
use vstd::prelude::*;
use vstd::string::*;

verus! {

/// The colour state of a character counter.
#[derive(Clone, Copy, Debug, PartialEq, Eq, Structural)]
pub enum TextColorState {
    Normal,
    Warning,
    Limit,
    OverLimit,
}

/// The colour state for a text of `len` characters against `limit`: past half
/// the limit warns; the exact limit and beyond are reached only with a limit
/// of zero.
pub open spec fn color_state(len: nat, limit: nat) -> TextColorState {
    if len > limit / 2 {
        TextColorState::Warning
    } else if len == limit {
        TextColorState::Limit
    } else if len >= limit {
        TextColorState::OverLimit
    } else {
        TextColorState::Normal
    }
}

pub fn set_color_from_state(text_length: u64, text_limit: u64) -> (r: TextColorState)
    ensures
        r == color_state(text_length as nat, text_limit as nat),
{
    if text_length > text_limit / 2 {
        TextColorState::Warning
    } else if text_length == text_limit {
        TextColorState::Limit
    } else if text_length >= text_limit {
        TextColorState::OverLimit
    } else {
        TextColorState::Normal
    }
}

/// The colour name of a state.
pub open spec fn color_name(s: TextColorState) -> Seq<char> {
    match s {
        TextColorState::Normal => "white"@,
        TextColorState::Warning => "yellow"@,
        TextColorState::Limit => "red"@,
        TextColorState::OverLimit => "really red"@,
    }
}

impl TextColorState {
    pub fn to_string(&self) -> (r: String)
        ensures
            r@ == color_name(*self),
    {
        match *self {
            TextColorState::Normal => String::from_str("white"),
            TextColorState::Warning => String::from_str("yellow"),
            TextColorState::Limit => String::from_str("red"),
            TextColorState::OverLimit => String::from_str("really red"),
        }
    }
}

/// The minimum height of a note on screen.
#[derive(Clone, Copy, Debug, PartialEq, Eq, Structural)]
pub enum MinimumNoteHeight {
    Minimized,
    Normal,
}

pub fn state_into_height(is_minimized: bool) -> (r: MinimumNoteHeight)
    ensures
        r == (if is_minimized { MinimumNoteHeight::Minimized } else { MinimumNoteHeight::Normal }),
{
    if is_minimized {
        MinimumNoteHeight::Minimized
    } else {
        MinimumNoteHeight::Normal
    }
}

impl MinimumNoteHeight {
    /// The CSS height: `85px` for a minimized note, empty otherwise.
    pub fn into_px_height(&self) -> (r: String)
        ensures
            r@ == (match *self {
                MinimumNoteHeight::Minimized => "85px"@,
                MinimumNoteHeight::Normal => Seq::<char>::empty(),
            }),
    {
        match *self {
            MinimumNoteHeight::Minimized => String::from_str("85px"),
            MinimumNoteHeight::Normal => String::new(),
        }
    }
}

} // verus!
