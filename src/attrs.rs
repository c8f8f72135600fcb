//! Display attributes of a panel and the overlay of one set over another.
use vstd::prelude::*;

verus! {

/// A color with 8-bit red, green, blue and alpha channels.
#[derive(Clone, Copy, Debug, PartialEq, Eq, Structural)]
pub struct Color {
    pub r: u8,
    pub g: u8,
    pub b: u8,
    pub a: u8,
}

/// Foreground color, background color and font; each may be unset.
#[derive(Debug)]
pub struct Attrs {
    pub font: Option<String>,
    pub fg: Option<Color>,
    pub bg: Option<Color>,
}

/// The value of one field after an overlay: the child's if set, else the
/// parent's.
pub open spec fn pick<T>(parent: Option<T>, child: Option<T>) -> Option<T> {
    if child.is_some() {
        child
    } else {
        parent
    }
}

/// The overlay of `child` onto `parent`, field by field.
pub open spec fn overlay_spec(parent: Attrs, child: Attrs) -> Attrs {
    Attrs {
        font: pick(parent.font, child.font),
        fg: pick(parent.fg, child.fg),
        bg: pick(parent.bg, child.bg),
    }
}

fn copy_font(font: &Option<String>) -> (r: Option<String>)
    ensures
        r == *font,
{
    match font {
        Some(f) => Some(f.clone()),
        None => None,
    }
}

impl Attrs {
    /// No field set.
    pub open spec fn is_unset(&self) -> bool {
        self.font.is_none() && self.fg.is_none() && self.bg.is_none()
    }

    /// Every field set.
    pub open spec fn is_full(&self) -> bool {
        self.font.is_some() && self.fg.is_some() && self.bg.is_some()
    }

    /// An attribute set with no field set.
    pub fn unset() -> (r: Attrs)
        ensures
            r.is_unset(),
    {
        Attrs { font: None, fg: None, bg: None }
    }

    /// A copy of this attribute set.
    pub fn duplicate(&self) -> (r: Attrs)
        ensures
            r == *self,
    {
        Attrs { font: copy_font(&self.font), fg: self.fg, bg: self.bg }
    }

    /// Overlays `child` onto `self`: each field of the result is the child's
    /// if the child sets it, else this set's.
    pub fn overlay(self, child: Attrs) -> (r: Attrs)
        ensures
            r == overlay_spec(self, child),
    {
        let font = match child.font {
            Some(f) => Some(f),
            None => self.font,
        };
        let fg = match child.fg {
            Some(c) => Some(c),
            None => self.fg,
        };
        let bg = match child.bg {
            Some(c) => Some(c),
            None => self.bg,
        };
        Attrs { font, fg, bg }
    }

    /// Fills the fields that this set leaves unset from `parent`: afterwards
    /// this set is the overlay of its old value onto `parent`.
    pub fn apply_to(&mut self, parent: &Attrs)
        ensures
            *final(self) == overlay_spec(*parent, *old(self)),
    {
        if self.font.is_none() {
            self.font = copy_font(&parent.font);
        }
        if self.fg.is_none() {
            self.fg = parent.fg;
        }
        if self.bg.is_none() {
            self.bg = parent.bg;
        }
    }
}

impl Default for Attrs {
    fn default() -> (r: Attrs)
        ensures
            r.is_unset(),
    {
        Attrs::unset()
    }
}

/// Overlaying a child with no field set leaves the parent unchanged, and
/// overlaying a child with every field set gives the child.
pub proof fn lemma_overlay_unset_and_full(parent: Attrs, child: Attrs)
    ensures
        child.is_unset() ==> overlay_spec(parent, child) == parent,
        child.is_full() ==> overlay_spec(parent, child) == child,
{
}

/// Overlay is associative: overlaying `b` then `c` onto `a` is overlaying the
/// overlay of `c` onto `b` onto `a`.
pub proof fn lemma_overlay_associative(a: Attrs, b: Attrs, c: Attrs)
    ensures
        overlay_spec(overlay_spec(a, b), c) == overlay_spec(a, overlay_spec(b, c)),
{
}

/// Overlaying a set onto itself gives that set.
pub proof fn lemma_overlay_idempotent(a: Attrs)
    ensures
        overlay_spec(a, a) == a,
{
}

} // verus!
