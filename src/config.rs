use vstd::prelude::*;
use vstd::string::StringExecFns;

verus! {

/// Size and position of the bar, in pixels.
pub struct Dimension {
    pub height: u32,
    pub width: u32,
    pub x: u32,
    pub y: u32,
}

/// One slot of the bar and the source of its content.
#[derive(Clone, Debug)]
pub enum Element {
    /// A long-lived command whose every output line replaces the content.
    Command { command: String, width: Option<u32> },
    /// A command run again every `time` milliseconds.
    Repeat { command: String, time: u32, width: Option<u32> },
    /// A blank of `size` spaces.
    Fixed { size: u32 },
    /// A constant text.
    Seperator { sep: String },
    /// The boundary between the left-aligned and the right-aligned group.
    Right,
}

impl Element {
    /// The width given in the configuration, which replaces measuring.
    pub open spec fn explicit_width(&self) -> Option<u32> {
        match self {
            Element::Command { width, .. } => *width,
            Element::Repeat { width, .. } => *width,
            _ => None,
        }
    }

    /// Whether this element marks the start of the right-aligned group.
    pub open spec fn is_split(&self) -> bool {
        self is Right
    }

    pub fn get_width(&self) -> (r: Option<u32>)
        ensures
            r == self.explicit_width(),
    {
        match self {
            Element::Command { width, .. } | Element::Repeat { width, .. } => {
                *width
            },
            _ => None,
        }
    }
}

/// The whole configuration: bar geometry, font and segments.
pub struct Config {
    pub dimensions: Dimension,
    pub font: String,
    pub elements: Vec<Element>,
}

/// The configuration used when the user has none: a 400 by 20 bar at the
/// origin, with no segments. The font name is a single blank, since an empty
/// one is refused by the renderer.
pub fn default_config() -> (c: Config)
    ensures
        c.font@ == seq![' '],
        c.dimensions.width == 400,
        c.dimensions.height == 20,
        c.dimensions.x == 0,
        c.dimensions.y == 0,
        c.elements@.len() == 0,
{
    proof {
        reveal_strlit(" ");
    }
    Config {
        font: String::from_str(" "),
        dimensions: Dimension { height: 20, width: 400, x: 0, y: 0 },
        elements: Vec::new(),
    }
}

impl Config {
    /// Replaces each part of the geometry for which a value is given.
    pub fn apply_overrides(&mut self, width: Option<u32>, height: Option<u32>, x: Option<u32>, y: Option<u32>)
        ensures
            final(self).dimensions.width == (match width { Some(v) => v, None => old(self).dimensions.width }),
            final(self).dimensions.height == (match height { Some(v) => v, None => old(self).dimensions.height }),
            final(self).dimensions.x == (match x { Some(v) => v, None => old(self).dimensions.x }),
            final(self).dimensions.y == (match y { Some(v) => v, None => old(self).dimensions.y }),
            final(self).font == old(self).font,
            final(self).elements == old(self).elements,
    {
        if let Some(v) = width {
            self.dimensions.width = v;
        }
        if let Some(v) = height {
            self.dimensions.height = v;
        }
        if let Some(v) = x {
            self.dimensions.x = v;
        }
        if let Some(v) = y {
            self.dimensions.y = v;
        }
    }
}

} // verus!
