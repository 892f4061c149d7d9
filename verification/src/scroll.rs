//! A saturating line cursor that is reconciled against the size of its
//! viewport in a second step.

use vstd::prelude::*;

verus! {

/// Line offset of a scrollable pane.
///
/// Moving is unbounded upwards of the content; [`Scroll::adjust`] brings the
/// position back into `[0, lines - space]` once both are known.
#[derive(Debug, Clone, Copy)]
pub struct Scroll(usize);

/// Largest position at which `space` visible lines still start inside
/// `lines` lines of content.
pub open spec fn max_position(lines: int, space: int) -> int {
    if lines >= space {
        lines - space
    } else {
        0
    }
}

/// Position after reconciling `position` with `lines` lines of content shown
/// in `space` lines.
pub open spec fn adjusted_position(position: int, lines: int, space: int) -> int {
    if position <= max_position(lines, space) {
        position
    } else {
        max_position(lines, space)
    }
}

impl Scroll {
    /// The line offset this cursor stands at.
    pub closed spec fn position(&self) -> int {
        self.0 as int
    }

    /// A cursor at line `position`.
    pub fn at(position: usize) -> (scroll: Scroll)
        ensures
            scroll.position() == position,
    {
        Scroll(position)
    }

    /// Moves one line up, stopping at the top.
    pub fn up(&mut self)
        ensures
            final(self).position() == if old(self).position() == 0 {
                0
            } else {
                old(self).position() - 1
            },
    {
        self.0 = self.0.saturating_sub(1);
    }

    /// Moves one line down, stopping only at the largest representable line.
    pub fn down(&mut self)
        ensures
            final(self).position() == if old(self).position() == usize::MAX {
                usize::MAX as int
            } else {
                old(self).position() + 1
            },
    {
        self.0 = self.0.saturating_add(1);
    }

    /// Brings the position back into the range in which `space` visible lines
    /// show content out of `lines` lines.
    pub fn adjust(&mut self, lines: usize, space: usize)
        ensures
            final(self).position() == adjusted_position(
                old(self).position(),
                lines as int,
                space as int,
            ),
            lines <= space ==> final(self).position() == 0,
    {
        let limit: usize = lines.saturating_sub(space);
        if self.0 > limit {
            self.0 = limit;
        }
    }
}

impl Default for Scroll {
    /// A cursor at the top.
    fn default() -> (scroll: Scroll)
        ensures
            scroll.position() == 0,
    {
        Scroll(0)
    }
}

/// Reconciling leaves the position inside the content: at most at the last
/// full page, and at the top where all the content fits the pane.
pub proof fn lemma_adjusted_position_in_range(position: int, lines: int, space: int)
    requires
        position >= 0,
    ensures
        0 <= adjusted_position(position, lines, space) <= max_position(lines, space),
        adjusted_position(position, lines, space) <= position,
        lines <= space ==> adjusted_position(position, lines, space) == 0,
{
}

/// Reconciling a second time against the same sizes changes nothing.
pub proof fn lemma_adjusted_position_idempotent(position: int, lines: int, space: int)
    ensures
        adjusted_position(adjusted_position(position, lines, space), lines, space)
            == adjusted_position(position, lines, space),
{
}

impl From<Scroll> for usize {
    /// The position as a plain index.
    fn from(val: Scroll) -> (position: usize) {
        val.0
    }
}

impl vstd::std_specs::convert::FromSpecImpl<Scroll> for usize {
    open spec fn obeys_from_spec() -> bool {
        true
    }

    open spec fn from_spec(val: Scroll) -> usize {
        val.position() as usize
    }
}

impl From<Scroll> for u16 {
    /// The position as a line count of the renderer, which keeps the low
    /// sixteen bits; every position up to `u16::MAX` is kept as it is.
    fn from(val: Scroll) -> (position: u16) {
        #[verifier::truncate]
        (val.0 as u16)
    }
}

impl vstd::std_specs::convert::FromSpecImpl<Scroll> for u16 {
    open spec fn obeys_from_spec() -> bool {
        true
    }

    open spec fn from_spec(val: Scroll) -> u16 {
        val.position() as u16
    }
}

} // verus!
