use vstd::prelude::*;

use crate::button::{add_or_select, merged, Button};
use crate::click::ClickAction;
use crate::face::ButtonFace;

verus! {

/// Where the store of images stands.
#[derive(Clone, Copy, Debug, PartialEq, Eq, Structural)]
pub enum StoreState {
    /// Being opened; images chosen meanwhile are shown but not kept.
    Opening,
    /// Open with its schema: chosen images are kept.
    Ready,
    /// Could not be opened: images are shown but not kept.
    Unavailable,
}

/// What happened, as the surrounding program reports it.
#[derive(Debug)]
pub enum Event {
    /// The user clicked the button.
    Clicked(ClickAction),
    /// The picker returned a file; its displayable reference, if one could be
    /// made for it.
    ImageChosen(Option<String>),
    /// The store was opened.
    StoreOpened,
    /// The store could not be opened.
    StoreOpenFailed,
    /// The references of the images kept in the store, read at startup.
    AssetsListed(Vec<String>),
}

/// What the surrounding program is to do next.
#[derive(Clone, Copy, Debug, PartialEq, Eq, Structural)]
pub enum Command {
    /// Nothing.
    Idle,
    /// Open the file picker for images.
    PromptForImage,
    /// Write the chosen file into the store.
    Persist,
    /// Read every image kept in the store.
    ListAll,
}

/// The answer to an event: whether to draw again, and what to do.
#[derive(Clone, Copy, Debug, PartialEq, Eq, Structural)]
pub struct Reaction {
    pub rerender: bool,
    pub command: Command,
}

/// The state of the widget: its button and the store that keeps its images.
pub struct Coordinator {
    button: Button,
    store: StoreState,
}

impl Coordinator {
    /// The button of the widget.
    pub closed spec fn button_spec(&self) -> &Button {
        &self.button
    }

    /// Where the store stands.
    pub closed spec fn store_spec(&self) -> StoreState {
        self.store
    }

    pub open spec fn wf(&self) -> bool {
        self.button_spec().wf()
    }

    /// The widget at startup: the top face, no custom faces, the store being
    /// opened.
    pub fn new() -> (r: Coordinator)
        ensures
            r.wf(),
            r.button_spec().shown() == ButtonFace::Top,
            r.button_spec().faces() == Seq::<Seq<char>>::empty(),
            r.store_spec() == StoreState::Opening,
    {
        Coordinator { button: Button::new(), store: StoreState::Opening }
    }

    /// The button of the widget.
    pub fn button(&self) -> (r: &Button)
        ensures
            r == self.button_spec(),
    {
        &self.button
    }

    /// Where the store stands.
    pub fn store_state(&self) -> (r: StoreState)
        ensures
            r == self.store_spec(),
    {
        self.store
    }

    /// Takes one event. A flip changes the face at once. A chosen image is
    /// shown at once and kept only when the store is open; whether it is kept
    /// never changes what is shown. Opening the store leads to reading what it
    /// keeps, which is loaded into the button.
    pub fn update(&mut self, event: Event) -> (r: Reaction)
        requires
            old(self).wf(),
        ensures
            final(self).wf(),
            match event {
                Event::Clicked(ClickAction::Flip) => {
                    &&& final(self).button_spec().faces() == old(self).button_spec().faces()
                    &&& final(self).button_spec().shown() == old(self).button_spec().shown().next(
                        old(self).button_spec().faces().len(),
                    )
                    &&& final(self).store_spec() == old(self).store_spec()
                    &&& r == (Reaction { rerender: true, command: Command::Idle })
                },
                Event::Clicked(ClickAction::ChooseImage) => {
                    &&& final(self).button_spec() == old(self).button_spec()
                    &&& final(self).store_spec() == old(self).store_spec()
                    &&& r == (Reaction { rerender: true, command: Command::PromptForImage })
                },
                Event::ImageChosen(reference) => {
                    &&& match reference {
                        Some(u) => add_or_select(old(self).button_spec().faces(), u@) == (
                            final(self).button_spec().faces(),
                            final(self).button_spec().shown(),
                        ),
                        None => final(self).button_spec() == old(self).button_spec(),
                    }
                    &&& final(self).store_spec() == old(self).store_spec()
                    &&& r.rerender
                    &&& r.command == (if old(self).store_spec() == StoreState::Ready {
                        Command::Persist
                    } else {
                        Command::Idle
                    })
                },
                Event::StoreOpened => {
                    &&& final(self).button_spec() == old(self).button_spec()
                    &&& final(self).store_spec() == StoreState::Ready
                    &&& r == (Reaction { rerender: false, command: Command::ListAll })
                },
                Event::StoreOpenFailed => {
                    &&& final(self).button_spec() == old(self).button_spec()
                    &&& final(self).store_spec() == StoreState::Unavailable
                    &&& r == (Reaction { rerender: false, command: Command::Idle })
                },
                Event::AssetsListed(refs) => {
                    let before = old(self).button_spec().faces();
                    let after = merged(before, crate::button::texts(refs@));
                    &&& final(self).button_spec().faces() == after
                    &&& r.command == Command::Idle
                    &&& r.rerender == (after.len() > before.len())
                    &&& r.rerender ==> final(self).button_spec().shown() == ButtonFace::Custom(
                        before.len() as usize,
                    )
                    &&& !r.rerender ==> final(self).button_spec().shown()
                        == old(self).button_spec().shown()
                    &&& final(self).store_spec() == old(self).store_spec()
                },
            },
    {
        match event {
            Event::Clicked(ClickAction::Flip) => {
                self.button.incr();
                Reaction { rerender: true, command: Command::Idle }
            },
            Event::Clicked(ClickAction::ChooseImage) => {
                Reaction { rerender: true, command: Command::PromptForImage }
            },
            Event::ImageChosen(reference) => {
                match reference {
                    Some(u) => self.button.add_custom(u),
                    None => {},
                }
                let command = match self.store {
                    StoreState::Ready => Command::Persist,
                    _ => Command::Idle,
                };
                Reaction { rerender: true, command }
            },
            Event::StoreOpened => {
                self.store = StoreState::Ready;
                Reaction { rerender: false, command: Command::ListAll }
            },
            Event::StoreOpenFailed => {
                self.store = StoreState::Unavailable;
                Reaction { rerender: false, command: Command::Idle }
            },
            Event::AssetsListed(refs) => {
                let rerender = self.button.add(refs);
                Reaction { rerender, command: Command::Idle }
            },
        }
    }
}

} // verus!
