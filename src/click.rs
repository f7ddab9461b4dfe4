use vstd::prelude::*;

verus! {

/// What a click on the button asks for.
#[derive(Clone, Copy, Debug, PartialEq, Eq, Structural)]
pub enum ClickAction {
    /// Show the next face.
    Flip,
    /// Pick an image to show as a custom face.
    ChooseImage,
}

impl ClickAction {
    /// A click with the modifier key held chooses an image; any other click
    /// flips the button.
    pub fn from_modifier(modifier_held: bool) -> (r: ClickAction)
        ensures
            r == (if modifier_held {
                ClickAction::ChooseImage
            } else {
                ClickAction::Flip
            }),
    {
        if modifier_held {
            ClickAction::ChooseImage
        } else {
            ClickAction::Flip
        }
    }
}

} // verus!
