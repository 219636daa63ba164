//! The initial settings that a windowed application needs to
//! initialize and display itself.

use vstd::prelude::*;

verus! {

/// The initial settings that a windowed application
/// will need to initialize and display itself.
pub struct UIBlueprint {
    pub title: String,
    pub dimensions: (u32, u32),
    pub resizeable: bool,
    pub maximized: bool,
    pub preserve_aspect_ratio: bool,
    pub frames_per_second: u32,
}

impl UIBlueprint {
    /// The default settings: an untitled, resizable 800 by 800 window
    /// that letterboxes its frames and redraws sixty times per second.
    pub fn default() -> (r: UIBlueprint)
        ensures
            r.title@ == Seq::<char>::empty(),
            r.dimensions == (800u32, 800u32),
            r.resizeable,
            !r.maximized,
            r.preserve_aspect_ratio,
            r.frames_per_second == 60,
    {
        UIBlueprint {
            title: String::new(),
            dimensions: (800, 800),
            resizeable: true,
            maximized: false,
            preserve_aspect_ratio: true,
            frames_per_second: 60,
        }
    }

    /// The same settings with the window title replaced.
    pub fn title(self, title: &str) -> (r: UIBlueprint)
        ensures
            r.title@ == title@,
            r.dimensions == self.dimensions,
            r.resizeable == self.resizeable,
            r.maximized == self.maximized,
            r.preserve_aspect_ratio == self.preserve_aspect_ratio,
            r.frames_per_second == self.frames_per_second,
    {
        UIBlueprint {
            title: title.to_owned(),
            dimensions: self.dimensions,
            resizeable: self.resizeable,
            maximized: self.maximized,
            preserve_aspect_ratio: self.preserve_aspect_ratio,
            frames_per_second: self.frames_per_second,
        }
    }

    /// The same settings with the window dimensions replaced.
    pub fn dimensions(self, dimensions: (u32, u32)) -> (r: UIBlueprint)
        ensures
            r.title@ == self.title@,
            r.dimensions == dimensions,
            r.resizeable == self.resizeable,
            r.maximized == self.maximized,
            r.preserve_aspect_ratio == self.preserve_aspect_ratio,
            r.frames_per_second == self.frames_per_second,
    {
        UIBlueprint {
            title: self.title,
            dimensions,
            resizeable: self.resizeable,
            maximized: self.maximized,
            preserve_aspect_ratio: self.preserve_aspect_ratio,
            frames_per_second: self.frames_per_second,
        }
    }

    /// The same settings with the resizability flag replaced.
    pub fn resizeable(self, resizeable: bool) -> (r: UIBlueprint)
        ensures
            r.title@ == self.title@,
            r.dimensions == self.dimensions,
            r.resizeable == resizeable,
            r.maximized == self.maximized,
            r.preserve_aspect_ratio == self.preserve_aspect_ratio,
            r.frames_per_second == self.frames_per_second,
    {
        UIBlueprint {
            title: self.title,
            dimensions: self.dimensions,
            resizeable,
            maximized: self.maximized,
            preserve_aspect_ratio: self.preserve_aspect_ratio,
            frames_per_second: self.frames_per_second,
        }
    }

    /// The same settings with the maximized flag replaced.
    pub fn maximized(self, maximized: bool) -> (r: UIBlueprint)
        ensures
            r.title@ == self.title@,
            r.dimensions == self.dimensions,
            r.resizeable == self.resizeable,
            r.maximized == maximized,
            r.preserve_aspect_ratio == self.preserve_aspect_ratio,
            r.frames_per_second == self.frames_per_second,
    {
        UIBlueprint {
            title: self.title,
            dimensions: self.dimensions,
            resizeable: self.resizeable,
            maximized,
            preserve_aspect_ratio: self.preserve_aspect_ratio,
            frames_per_second: self.frames_per_second,
        }
    }

    /// The same settings with the letterboxing flag replaced.
    pub fn preserve_aspect_ratio(self, preserve_aspect_ratio: bool) -> (r: UIBlueprint)
        ensures
            r.title@ == self.title@,
            r.dimensions == self.dimensions,
            r.resizeable == self.resizeable,
            r.maximized == self.maximized,
            r.preserve_aspect_ratio == preserve_aspect_ratio,
            r.frames_per_second == self.frames_per_second,
    {
        UIBlueprint {
            title: self.title,
            dimensions: self.dimensions,
            resizeable: self.resizeable,
            maximized: self.maximized,
            preserve_aspect_ratio,
            frames_per_second: self.frames_per_second,
        }
    }

    /// The same settings with the frame rate replaced.
    pub fn frames_per_second(self, frames_per_second: u32) -> (r: UIBlueprint)
        ensures
            r.title@ == self.title@,
            r.dimensions == self.dimensions,
            r.resizeable == self.resizeable,
            r.maximized == self.maximized,
            r.preserve_aspect_ratio == self.preserve_aspect_ratio,
            r.frames_per_second == frames_per_second,
    {
        UIBlueprint {
            title: self.title,
            dimensions: self.dimensions,
            resizeable: self.resizeable,
            maximized: self.maximized,
            preserve_aspect_ratio: self.preserve_aspect_ratio,
            frames_per_second,
        }
    }
}

} // verus!
