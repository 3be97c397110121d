//! The state behind the animated loading screen.

use vstd::prelude::*;
use vstd::string::*;

verus! {

/// Number of animation frames before the figure is back where it started.
pub const FRAME_COUNT: u16 = 8;

/// Vertical offset of the bouncing figure at animation frame `frame`.
pub open spec fn bounce_offset(frame: int) -> int {
    if frame < 4 {
        frame
    } else {
        8 - frame
    }
}

/// A label and the position in the bounce animation drawn under it.
pub struct LoadingWidget {
    label: String,
    frame: u16,
}

impl LoadingWidget {
    /// The frame counter stays inside one animation cycle.
    pub open spec fn wf(&self) -> bool {
        0 <= self.frame_view() < FRAME_COUNT
    }

    /// The text shown above the figure.
    pub closed spec fn label_view(&self) -> Seq<char> {
        self.label@
    }

    /// The frame that the next draw will show.
    pub closed spec fn frame_view(&self) -> int {
        self.frame as int
    }

    pub fn new(label: &str) -> (w: Self)
        ensures
            w.wf(),
            w.label_view() == label@,
            w.frame_view() == 0,
    {
        LoadingWidget { label: String::from_str(label), frame: 0 }
    }

    pub fn change_label(&mut self, label: String)
        ensures
            final(self).label_view() == label@,
            final(self).frame_view() == old(self).frame_view(),
            old(self).wf() ==> final(self).wf(),
    {
        self.label = label;
    }

    /// The current label.
    pub fn label(&self) -> (s: &str)
        ensures
            s@ == self.label_view(),
    {
        self.label.as_str()
    }

    /// Returns the offset at which the figure is drawn now and moves the
    /// animation on by one frame, wrapping after a full cycle.
    pub fn advance(&mut self) -> (offset: u16)
        requires
            old(self).wf(),
        ensures
            final(self).wf(),
            offset as int == bounce_offset(old(self).frame_view()),
            final(self).frame_view() == (old(self).frame_view() + 1) % 8,
            final(self).label_view() == old(self).label_view(),
    {
        let offset: u16 = if self.frame < 4 { self.frame } else { 8 - self.frame };
        self.frame = (self.frame + 1) % 8;
        offset
    }
}

} // verus!
