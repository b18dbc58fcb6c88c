//! What an event tap listens to.

use vstd::prelude::*;

verus! {

/// The native events that a tap delivers.
#[derive(Clone, Copy, Debug, PartialEq, Eq, Structural)]
pub enum EventTapMode {
    InputOnly { capture_text_content: bool },
    ClickOnly,
    InputAndClicks { capture_text_content: bool },
}

impl EventTapMode {
    pub open spec fn input(self) -> bool {
        self is InputOnly || self is InputAndClicks
    }

    pub open spec fn clicks(self) -> bool {
        self is ClickOnly || self is InputAndClicks
    }

    pub open spec fn text_content(self) -> bool {
        match self {
            EventTapMode::InputOnly { capture_text_content } => capture_text_content,
            EventTapMode::InputAndClicks { capture_text_content } => capture_text_content,
            EventTapMode::ClickOnly => false,
        }
    }

    /// Whether keystrokes and scrolling are delivered.
    pub fn captures_input(self) -> (captured: bool)
        ensures
            captured == self.input(),
    {
        matches!(self, EventTapMode::InputOnly { .. } | EventTapMode::InputAndClicks { .. })
    }

    /// Whether mouse clicks are delivered.
    pub fn captures_clicks(self) -> (captured: bool)
        ensures
            captured == self.clicks(),
    {
        matches!(self, EventTapMode::ClickOnly | EventTapMode::InputAndClicks { .. })
    }

    /// Whether typed text may be read at all.
    pub fn captures_text_content(self) -> (captured: bool)
        ensures
            captured == self.text_content(),
    {
        match self {
            EventTapMode::InputOnly { capture_text_content } => capture_text_content,
            EventTapMode::InputAndClicks { capture_text_content } => capture_text_content,
            EventTapMode::ClickOnly => false,
        }
    }
}

/// Each mode captures what its name says: clicks alone never text.
pub proof fn law_modes_capture_what_they_say(
    mode: EventTapMode,
    input: bool,
    clicks: bool,
    text: bool,
)
    requires
        call_ensures(EventTapMode::captures_input, (mode,), input),
        call_ensures(EventTapMode::captures_clicks, (mode,), clicks),
        call_ensures(EventTapMode::captures_text_content, (mode,), text),
    ensures
        input || clicks,
        input && !clicks <==> mode is InputOnly,
        clicks && !input <==> mode is ClickOnly,
        text ==> input,
        mode matches EventTapMode::InputOnly { capture_text_content } ==> text
            == capture_text_content,
        mode matches EventTapMode::InputAndClicks { capture_text_content } ==> text
            == capture_text_content,
{
}

} // verus!
