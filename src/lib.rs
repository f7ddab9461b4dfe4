//! A clickable button whose face flips between a top, a bottom and images
//! that the user picks, with the picked images kept in a browser store so
//! that they come back after a reload.
//!
//! - `face`: the faces and the tour that flipping follows.
//! - `button`: the button with its list of custom faces.
//! - `click`: what a click asks for.
//! - `store`: the schema of the store and the outcomes of writing to it.
//! - `coordinator`: the state machine that takes events and says what to do.

pub mod button;
pub mod click;
pub mod coordinator;
pub mod face;
pub mod store;
