//! The displays and screens that do not render through DRI3: indirect rendering, and DRI2.
use vstd::prelude::*;

use crate::config::GlConfig;
use crate::screen::GlScreen;

verus! {

/// A display that renders indirectly, through the server.
#[derive(Debug, Copy, Clone, PartialEq, Eq, Structural)]
pub struct IndirectDisplay {}

/// A screen of an indirectly rendering display.
#[derive(Debug, Copy, Clone, PartialEq, Eq, Structural)]
pub struct IndirectScreen {}

/// A display that renders through DRI2.
#[derive(Debug, Copy, Clone, PartialEq, Eq, Structural)]
pub struct Dri2Display {}

/// A screen of a DRI2 display.
#[derive(Debug, Copy, Clone, PartialEq, Eq, Structural)]
pub struct Dri2Screen {}

impl IndirectDisplay {
    pub fn new() -> (r: IndirectDisplay)
        ensures
            r == (IndirectDisplay {}),
    {
        IndirectDisplay {}
    }

    /// The screen `index`, with the visuals and framebuffer configurations the server
    /// reported for it.
    pub fn create_screen(&self, index: usize, visuals: Vec<GlConfig>, fbconfigs: Vec<GlConfig>) -> (r: (GlScreen, IndirectScreen))
        ensures
            r.0.screen_index_spec() == index,
            r.0.fbconfigs_spec() == fbconfigs@,
            r.0.visuals_spec() == visuals@,
    {
        (GlScreen::new(index, fbconfigs, visuals), IndirectScreen::new())
    }
}

impl IndirectScreen {
    pub fn new() -> (r: IndirectScreen)
        ensures
            r == (IndirectScreen {}),
    {
        IndirectScreen {}
    }
}

} // verus!
