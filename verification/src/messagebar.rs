//! The message bar: shows a transient one-line message that expires a few
//! seconds after it was set. Time is supplied by the caller as a
//! millisecond clock reading; the bar only compares readings.

use crate::size::Size;
use crate::uicomponent::UIComponent;
use vstd::prelude::*;
use vstd::view::View as _;

verus! {

/// How long a message stays readable, in milliseconds.
pub const MESSAGE_DURATION_MS: u64 = 5000;

/// A message and the clock reading at which it was set.
struct Message {
    text: String,
    time: u64,
}

/// The message bar's state: the current message, the redraw flag, the
/// latest clock reading, and whether an expired message was already
/// cleared from the screen.
pub struct Messagebar {
    current_message: Message,
    needs_redraw: bool,
    cleared_after_expiry: bool,
    clock: u64,
}

impl Messagebar {
    /// The current message's text.
    pub closed spec fn spec_text(self) -> Seq<char> {
        self.current_message.text@
    }

    /// The clock reading when the message was set.
    pub closed spec fn spec_updated_at(self) -> u64 {
        self.current_message.time
    }

    /// The latest clock reading the bar has seen.
    pub closed spec fn spec_clock(self) -> u64 {
        self.clock
    }

    /// Whether an expired message was already cleared from the screen.
    pub closed spec fn spec_cleared_after_expiry(self) -> bool {
        self.cleared_after_expiry
    }

    /// The explicit redraw flag.
    pub closed spec fn spec_flag(self) -> bool {
        self.needs_redraw
    }

    /// A message has expired when the display duration has passed since
    /// it was set.
    pub open spec fn is_expired(self) -> bool {
        self.spec_clock() > self.spec_updated_at() + MESSAGE_DURATION_MS
    }

    /// Replaces the message, timestamping it with the given clock
    /// reading, and marks the bar for redraw.
    pub fn update_message(&mut self, new_message: &str, now_ms: u64)
        ensures
            final(self).spec_text() == new_message@,
            final(self).spec_updated_at() == now_ms,
            final(self).spec_clock() == now_ms,
            final(self).spec_cleared_after_expiry() == false,
            final(self).spec_flag() == true,
    {
        self.current_message = Message { text: new_message.to_owned(), time: now_ms };
        self.clock = now_ms;
        self.cleared_after_expiry = false;
        self.needs_redraw = true;
    }

    /// Takes a fresh clock reading, against which expiry is judged.
    pub fn tick(&mut self, now_ms: u64)
        ensures
            final(self).spec_clock() == now_ms,
            final(self).spec_text() == old(self).spec_text(),
            final(self).spec_updated_at() == old(self).spec_updated_at(),
            final(self).spec_cleared_after_expiry() == old(self).spec_cleared_after_expiry(),
            final(self).spec_flag() == old(self).spec_flag(),
    {
        self.clock = now_ms;
    }

    /// The text to show: the message while it lives, an empty line once
    /// it has expired; clearing an expired message is remembered so the
    /// empty line is drawn just once.
    pub fn draw_text(&mut self) -> (r: String)
        ensures
            old(self).is_expired() ==> {
                &&& r@ == Seq::<char>::empty()
                &&& final(self).spec_cleared_after_expiry() == true
            },
            !old(self).is_expired() ==> {
                &&& r@ == old(self).spec_text()
                &&& final(self).spec_cleared_after_expiry() == old(
                    self,
                ).spec_cleared_after_expiry()
            },
            final(self).spec_text() == old(self).spec_text(),
            final(self).spec_updated_at() == old(self).spec_updated_at(),
            final(self).spec_clock() == old(self).spec_clock(),
            final(self).spec_flag() == old(self).spec_flag(),
    {
        let expired = self.clock.saturating_sub(self.current_message.time) > MESSAGE_DURATION_MS;
        if expired {
            self.cleared_after_expiry = true;
            String::new()
        } else {
            self.current_message.text.clone()
        }
    }

    /// Whether the bar needs drawing: explicitly marked, or holding an
    /// expired message that was not yet cleared from the screen.
    pub fn needs_redraw(&self) -> (r: bool)
        ensures
            r == ((self.is_expired() && !self.spec_cleared_after_expiry()) || self.spec_flag()),
    {
        let expired = self.clock.saturating_sub(self.current_message.time) > MESSAGE_DURATION_MS;
        (expired && !self.cleared_after_expiry) || self.needs_redraw
    }

    /// Sets the explicit redraw flag, leaving the message alone.
    pub fn mark_redraw(&mut self, value: bool)
        ensures
            final(self).spec_flag() == value,
            final(self).spec_text() == old(self).spec_text(),
            final(self).spec_updated_at() == old(self).spec_updated_at(),
            final(self).spec_clock() == old(self).spec_clock(),
            final(self).spec_cleared_after_expiry() == old(self).spec_cleared_after_expiry(),
    {
        self.needs_redraw = value;
    }

    /// Takes a fresh size; the bar is a single line and keeps no width,
    /// but resizing still marks it for redraw.
    pub fn resize(&mut self, size: Size)
        ensures
            final(self).spec_flag() == true,
            final(self).spec_text() == old(self).spec_text(),
            final(self).spec_updated_at() == old(self).spec_updated_at(),
            final(self).spec_clock() == old(self).spec_clock(),
            final(self).spec_cleared_after_expiry() == old(self).spec_cleared_after_expiry(),
    {
        let _ = size;
        self.needs_redraw = true;
    }

    /// The current message text, for callers that inspect it.
    pub fn current_text(&self) -> (r: &str)
        ensures
            r@ == self.spec_text(),
    {
        self.current_message.text.as_str()
    }
}

impl Default for Messagebar {
    /// An empty message, set at clock zero, with a redraw pending.
    fn default() -> (r: Messagebar)
        ensures
            r.spec_text() == Seq::<char>::empty(),
            r.spec_updated_at() == 0,
            r.spec_clock() == 0,
            r.spec_cleared_after_expiry() == false,
            r.spec_flag() == true,
    {
        Messagebar {
            current_message: Message { text: String::new(), time: 0 },
            needs_redraw: true,
            cleared_after_expiry: false,
            clock: 0,
        }
    }
}

impl UIComponent for Messagebar {
    /// The bar needs drawing when explicitly marked, or when its message
    /// has expired on screen and was not yet cleared.
    open spec fn redraw_flag(&self) -> bool {
        (self.is_expired() && !self.spec_cleared_after_expiry()) || self.spec_flag()
    }

    fn set_needs_redraw(&mut self, value: bool) {
        self.needs_redraw = value;
        if !value {
            let expired = self.clock.saturating_sub(self.current_message.time)
                > MESSAGE_DURATION_MS;
            if expired {
                // An expired message counts as needing a redraw until it
                // is cleared; un-marking the bar settles that part too.
                self.cleared_after_expiry = true;
            }
        }
    }

    fn needs_redraw(&self) -> bool {
        let expired = self.clock.saturating_sub(self.current_message.time) > MESSAGE_DURATION_MS;
        (expired && !self.cleared_after_expiry) || self.needs_redraw
    }

    fn set_size(&mut self, size: Size) {
    }

    fn draw_lines(&mut self) -> Vec<String> {
        let mut rows: Vec<String> = Vec::new();
        let text = self.draw_text();
        rows.push(text);
        rows
    }
}

} // verus!
