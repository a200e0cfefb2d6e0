use vstd::prelude::*;
use crate::config::Element;
use crate::layout::{layout, render, Slot};
use crate::markup::{markup_free, markup_stripped, strip_markup};
use crate::measure::{has_nul, text_width};

verus! {

/// Why an update could not be taken in.
#[derive(Debug, PartialEq, Eq, Structural)]
pub enum UpdateError {
    /// The text holds a NUL character, which the font cannot measure.
    Measure,
}

/// A measured width as a slot holds it: widths past `u32::MAX` saturate.
pub open spec fn clamp_width(w: u64) -> u32 {
    if w <= u32::MAX as u64 { w as u32 } else { u32::MAX }
}

/// Saturates a measured width to the range of a slot's width.
pub fn clamp_measured(w: u64) -> (r: u32)
    ensures
        r == clamp_width(w),
{
    if w <= u32::MAX as u64 { w as u32 } else { u32::MAX }
}

/// What the measurer must be given for a new `text` of `elem`: nothing when
/// the element has a width of its own, else the text without its markup.
pub fn measure_input(elem: &Element, text: &str) -> (r: Option<String>)
    ensures
        elem.explicit_width() is Some ==> r is None,
        elem.explicit_width() is None ==> (r matches Some(s) && s@ == markup_stripped(text@)
            && markup_free(s@)),
{
    match elem.get_width() {
        Some(_) => None,
        None => Some(strip_markup(text)),
    }
}

/// The latest content of every segment of the bar.
pub struct Aggregator {
    elements: Vec<Element>,
    slots: Vec<Slot>,
    bar: u32,
}

impl Aggregator {
    /// The segments, in their configured order.
    pub closed spec fn elements(&self) -> Seq<Element> {
        self.elements@
    }

    /// The latest text and width of each segment.
    pub closed spec fn slots(&self) -> Seq<Slot> {
        self.slots@
    }

    /// The width of the bar in pixels.
    pub closed spec fn bar(&self) -> u32 {
        self.bar
    }

    /// One slot for each segment.
    pub closed spec fn wf(&self) -> bool {
        self.elements@.len() == self.slots@.len()
    }

    /// Starts with an empty text of no width for every segment.
    pub fn new(elements: Vec<Element>, bar: u32) -> (r: Self)
        ensures
            r.wf(),
            r.elements() == elements@,
            r.bar() == bar,
            forall|i: int| 0 <= i < elements@.len() ==> r.slots()[i].text@.len() == 0 && r.slots()[i].width == 0,
    {
        let mut slots: Vec<Slot> = Vec::new();
        let n = elements.len();
        let mut i: usize = 0;
        while i < n
            invariant
                i <= n == elements.len(),
                slots@.len() == i,
                forall|j: int| 0 <= j < i ==> slots@[j].text@.len() == 0 && slots@[j].width == 0,
            decreases n - i,
        {
            slots.push(Slot { text: String::new(), width: 0 });
            i = i + 1;
        }
        Aggregator { elements, slots, bar }
    }

    /// The number of segments.
    pub fn len(&self) -> (r: usize)
        ensures
            r == self.elements().len(),
    {
        self.elements.len()
    }

    /// The element of segment `idx`.
    pub fn element(&self, idx: usize) -> (r: &Element)
        requires
            idx < self.elements().len(),
        ensures
            *r == self.elements()[idx as int],
    {
        &self.elements[idx]
    }

    /// The line for the current contents.
    pub fn line(&self) -> (line: String)
        requires
            self.wf(),
        ensures
            line@ == render(self.elements(), self.slots(), self.bar()),
    {
        layout(&self.elements, &self.slots, self.bar)
    }

    /// Stores `text` with its `width` as the content of segment `idx` and
    /// returns the new line.
    pub fn record(&mut self, idx: usize, text: String, width: u32) -> (line: String)
        requires
            old(self).wf(),
            idx < old(self).elements().len(),
        ensures
            final(self).wf(),
            final(self).elements() == old(self).elements(),
            final(self).bar() == old(self).bar(),
            final(self).slots() == old(self).slots().update(idx as int, Slot { text, width }),
            line@ == render(final(self).elements(), final(self).slots(), final(self).bar()),
    {
        self.slots[idx] = Slot { text, width };
        self.line()
    }

    /// Takes in a new `text` for segment `idx`: its width is the element's own
    /// one, or what `font` measures of the text without markup. Returns the
    /// new line; on an error nothing changes.
    pub fn update(&mut self, font: &textwidth::Context, idx: usize, text: String) -> (r: Result<String, UpdateError>)
        requires
            old(self).wf(),
            idx < old(self).elements().len(),
        ensures
            final(self).wf(),
            final(self).elements() == old(self).elements(),
            final(self).bar() == old(self).bar(),
            r is Err <==> old(self).elements()[idx as int].explicit_width() is None
                && has_nul(markup_stripped(text@)),
            match r {
                Ok(line) => {
                    &&& final(self).slots().len() == old(self).slots().len()
                    &&& forall|i: int| 0 <= i < old(self).slots().len() && i != idx
                        ==> final(self).slots()[i] == old(self).slots()[i]
                    &&& final(self).slots()[idx as int].text@ == text@
                    &&& (old(self).elements()[idx as int].explicit_width() matches Some(w)
                        ==> final(self).slots()[idx as int].width == w)
                    &&& line@ == render(final(self).elements(), final(self).slots(), final(self).bar())
                },
                Err(e) => {
                    &&& final(self).slots() == old(self).slots()
                    &&& old(self).elements()[idx as int].explicit_width() is None
                    &&& e == UpdateError::Measure
                },
            },
    {
        let width = match measure_input(&self.elements[idx], text.as_str()) {
            None => self.elements[idx].get_width().unwrap(),
            Some(stripped) => match text_width(font, stripped.as_str()) {
                Some(w) => clamp_measured(w),
                None => return Err(UpdateError::Measure),
            },
        };
        Ok(self.record(idx, text, width))
    }
}

} // verus!
