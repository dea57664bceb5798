//! The session state, input dispatch, and the detail formatter.

use crate::datatypes::{Brew, Brews, StatefulList};
use crate::datatypes::{next_selection, prev_selection};
use vstd::prelude::*;

verus! {

/// Where the detail-pane scroll stands after one request: the sum of the
/// old offset and the direction, clamped to the closed range `[0, 9]`.
pub open spec fn scroll_step(s: int, direction: int) -> int {
    if s + direction < 0 {
        0int
    } else if s + direction > 9 {
        9int
    } else {
        s + direction
    }
}

/// Scrolling always lands in the clamped range, whatever offset it starts
/// from, and it is idempotent at the boundaries: from `9` a further step
/// down stays at `9`, and from `0` a further step up stays at `0`, however
/// often either is repeated.
pub proof fn lemma_scroll_clamped(s: int, direction: int)
    ensures
        0 <= scroll_step(s, direction) <= 9,
        s == 9 && direction == 1 ==> scroll_step(s, direction) == 9,
        s == 0 && direction == -1 ==> scroll_step(s, direction) == 0,
{
}

/// The whole mutable state of a session: the selectable record list and the
/// detail-pane scroll offset.
pub struct App {
    pub brews: StatefulList<Brew>,
    pub scroll: u16,
}

impl App {
    /// A fresh session over a loaded record store: nothing selected, the
    /// detail pane at the top.
    pub fn new(brews: Brews) -> (app: App)
        ensures
            app.brews.items == brews.brews,
            app.brews.selected is None,
            app.scroll == 0,
    {
        App { brews: StatefulList::with_items(brews.brews), scroll: 0 }
    }

    /// Scroll the detail pane in the given direction, clamping the offset
    /// to `[0, 9]`; an offset that somehow stands outside the range is
    /// brought back into it.
    pub fn scroll(&mut self, direction: i8)
        ensures
            final(self).brews == old(self).brews,
            final(self).scroll as int == scroll_step(old(self).scroll as int, direction as int),
    {
        let moved: i32 = self.scroll as i32 + direction as i32;
        self.scroll = if moved < 0 {
            0
        } else if moved > 9 {
            9
        } else {
            moved as u16
        };
    }
}

/// One key event, as the session cares about it. The terminal collaborator
/// translates its raw events into this; anything it does not recognise is
/// `Other`.
#[derive(Clone, Copy, PartialEq, Eq, Structural, Debug)]
pub enum KeyInput {
    /// The quit key: end the session.
    Quit,
    /// Clear the highlight.
    Left,
    /// Highlight the next record.
    Down,
    /// Highlight the previous record.
    Up,
    /// Scroll the detail pane down one row.
    PageDown,
    /// Scroll the detail pane up one row.
    PageUp,
    /// Any other key: ignored.
    Other,
}

/// Apply one key event to the session state: exactly one navigation or
/// scroll action, or none. Returns whether the session should end; on the
/// quit key the state is left untouched.
pub fn dispatch_key(app: &mut App, key: KeyInput) -> (quit: bool)
    ensures
        quit == (key is Quit),
        final(app).brews.items == old(app).brews.items,
        final(app).brews.sel() == (match key {
            KeyInput::Left => None::<int>,
            KeyInput::Down => next_selection(
                old(app).brews.sel(),
                old(app).brews.items.len() as int,
            ),
            KeyInput::Up => prev_selection(
                old(app).brews.sel(),
                old(app).brews.items.len() as int,
            ),
            _ => old(app).brews.sel(),
        }),
        final(app).scroll as int == (match key {
            KeyInput::PageDown => scroll_step(old(app).scroll as int, 1),
            KeyInput::PageUp => scroll_step(old(app).scroll as int, -1),
            _ => old(app).scroll as int,
        }),
        old(app).brews.wf() ==> final(app).brews.wf(),
{
    match key {
        KeyInput::Quit => true,
        KeyInput::Left => {
            app.brews.unselect();
            false
        },
        KeyInput::Down => {
            app.brews.next();
            false
        },
        KeyInput::Up => {
            app.brews.previous();
            false
        },
        KeyInput::PageDown => {
            app.scroll(1);
            false
        },
        KeyInput::PageUp => {
            app.scroll(-1);
            false
        },
        KeyInput::Other => false,
    }
}

/// How long the wait phase may block for input: the tick rate less the time
/// already spent this tick, floored at zero. When the budget is spent the
/// caller polls without blocking and redraws.
pub fn poll_timeout_ms(tick_rate_ms: u64, elapsed_ms: u64) -> (timeout: u64)
    ensures
        timeout as int == (if elapsed_ms >= tick_rate_ms {
            0int
        } else {
            tick_rate_ms - elapsed_ms
        }),
{
    if elapsed_ms >= tick_rate_ms {
        0
    } else {
        tick_rate_ms - elapsed_ms
    }
}

} // verus!
