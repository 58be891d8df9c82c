//! The command-input bar: a one-line prompt with a typed value, shown
//! while the editor asks for a file name. The value's tail stays visible
//! when it outgrows the window.

use crate::command::Edit;
use crate::line::{width_upto, visible_slice, Line};
use crate::size::Size;
use crate::uicomponent::UIComponent;
use crate::sat_add;
use vstd::prelude::*;
use vstd::view::View as _;

verus! {

/// The bar's line: the prompt, then the slice of the value whose rendered
/// width fits after it, aligned so the value's end stays visible; an
/// empty line when even that does not fit.
pub open spec fn commandbar_line_spec(prompt: Seq<char>, value: Seq<Seq<char>>, columns: nat) -> Seq<char> {
    let area_for_value: nat = if columns >= prompt.len() {
        (columns - prompt.len()) as nat
    } else {
        0
    };
    let value_end = width_upto(value, value.len() as int);
    let value_start: nat = if value_end >= area_for_value {
        (value_end - area_for_value) as nat
    } else {
        0
    };
    let message = prompt + visible_slice(value, value_start, value_end);
    if message.len() <= columns {
        message
    } else {
        Seq::empty()
    }
}

/// How one edit command changes the prompt's typed value: characters
/// append, backspace removes the last grapheme cluster, enter and
/// forward delete leave it alone; any of them marks the bar for redraw.
pub open spec fn commandbar_edit_post(b0: CommandBar, b1: CommandBar, command: Edit) -> bool {
    &&& b1.spec_prompt() == b0.spec_prompt()
    &&& b1.spec_size() == b0.spec_size()
    &&& b1.spec_needs_redraw() == true
    &&& match command {
        Edit::Insert(ch) => b1.spec_value_content() == b0.spec_value_content() + seq![ch],
        Edit::DeleteBackward => {
            &&& b0.spec_value().len() > 0 ==> b1.spec_value_content()
                == crate::line::content_without(b0.spec_value(), b0.spec_value().len() - 1)
            &&& b0.spec_value().len() == 0 ==> b1.spec_value() == b0.spec_value()
        },
        Edit::InsertNewline => b1.spec_value() == b0.spec_value(),
        Edit::Delete => b1.spec_value() == b0.spec_value(),
    }
}

/// The command-input bar's state.
pub struct CommandBar {
    prompt: String,
    value: Line,
    needs_redraw: bool,
    size: Size,
}

impl CommandBar {
    /// The prompt's text.
    pub closed spec fn spec_prompt(self) -> Seq<char> {
        self.prompt@
    }

    /// The typed value, as a line.
    pub closed spec fn spec_value(self) -> Seq<Seq<char>> {
        self.value@
    }

    /// The typed value's exact text.
    pub closed spec fn spec_value_content(self) -> Seq<char> {
        self.value.content()
    }

    /// Whether the bar needs a redraw.
    pub closed spec fn spec_needs_redraw(self) -> bool {
        self.needs_redraw
    }

    /// The bar's size.
    pub closed spec fn spec_size(self) -> Size {
        self.size
    }

    /// Applies an edit command to the typed value: characters append,
    /// backspace deletes the last grapheme cluster, everything else is
    /// ignored; any of them marks the bar for redraw.
    pub fn handle_edit_command(&mut self, command: Edit)
        ensures
            commandbar_edit_post(*old(self), *final(self), command),
    {
        match command {
            Edit::Insert(ch) => {
                self.value.append_char(ch);
            },
            Edit::InsertNewline => {},
            Edit::Delete => {},
            Edit::DeleteBackward => {
                self.value.delete_last();
            },
        }
        self.needs_redraw = true;
    }

    /// The caret's column at the end of the typed value, clamped to the
    /// bar's width.
    pub fn caret_position_end(&self) -> (r: usize)
        ensures
            r as nat == {
                let max_width = sat_add(self.spec_prompt().len(), self.spec_value().len());
                if max_width <= self.spec_size().columns as nat {
                    max_width
                } else {
                    self.spec_size().columns as nat
                }
            },
    {
        let prompt_len = self.prompt.as_str().unicode_len();
        let count = self.value.grapheme_count();
        let max_width = prompt_len.saturating_add(count);
        if max_width <= self.size.columns {
            max_width
        } else {
            self.size.columns
        }
    }

    /// The typed value's text.
    pub fn value(&self) -> (r: String)
        ensures
            r@ == self.spec_value_content(),
    {
        self.value.to_string()
    }

    /// Replaces the prompt.
    pub fn set_prompt(&mut self, prompt: &str)
        ensures
            final(self).spec_prompt() == prompt@,
            final(self).spec_value() == old(self).spec_value(),
            final(self).spec_size() == old(self).spec_size(),
            final(self).spec_needs_redraw() == old(self).spec_needs_redraw(),
    {
        self.prompt = prompt.to_owned();
    }

    /// Reads the redraw flag.
    pub fn needs_redraw(&self) -> (r: bool)
        ensures
            r == self.spec_needs_redraw(),
    {
        self.needs_redraw
    }

    /// Sets the redraw flag, touching nothing else.
    pub fn mark_redraw(&mut self, value: bool)
        ensures
            final(self).spec_needs_redraw() == value,
            final(self).spec_prompt() == old(self).spec_prompt(),
            final(self).spec_value() == old(self).spec_value(),
            final(self).spec_value_content() == old(self).spec_value_content(),
            final(self).spec_size() == old(self).spec_size(),
    {
        self.needs_redraw = value;
    }

    /// Sets the bar's size and marks it for redraw.
    pub fn resize(&mut self, size: Size)
        ensures
            final(self).spec_size() == size,
            final(self).spec_needs_redraw() == true,
            final(self).spec_prompt() == old(self).spec_prompt(),
            final(self).spec_value() == old(self).spec_value(),
            final(self).spec_value_content() == old(self).spec_value_content(),
    {
        self.size = size;
        self.needs_redraw = true;
    }

    /// The text the bar shows: prompt, then the visible tail of the value.
    pub fn draw_text(&self) -> (r: String)
        ensures
            r@ == commandbar_line_spec(
                self.spec_prompt(),
                self.spec_value(),
                self.spec_size().columns as nat,
            ),
    {
        let prompt_len = self.prompt.as_str().unicode_len();
        let area_for_value = self.size.columns.saturating_sub(prompt_len);
        let value_end = self.value.width();
        let value_start = value_end.saturating_sub(area_for_value);
        let mut message = self.prompt.clone();
        let tail = self.value.get_visible_graheme(value_start..value_end);
        message.append(tail.as_str());
        let message_len = message.as_str().unicode_len();
        if message_len <= self.size.columns {
            message
        } else {
            String::new()
        }
    }
}

impl Default for CommandBar {
    /// An empty prompt with an empty value.
    fn default() -> (r: CommandBar)
        ensures
            r.spec_prompt() == Seq::<char>::empty(),
            r.spec_value() == Seq::<Seq<char>>::empty(),
            r.spec_needs_redraw() == true,
            r.spec_size() == (Size { columns: 0, rows: 0 }),
    {
        CommandBar {
            prompt: String::new(),
            value: Line::default(),
            needs_redraw: true,
            size: Size { columns: 0, rows: 0 },
        }
    }
}

impl UIComponent for CommandBar {
    open spec fn redraw_flag(&self) -> bool {
        self.spec_needs_redraw()
    }

    fn set_needs_redraw(&mut self, value: bool) {
        self.needs_redraw = value;
    }

    fn needs_redraw(&self) -> bool {
        self.needs_redraw
    }

    fn set_size(&mut self, size: Size) {
        self.size = size;
    }

    fn draw_lines(&mut self) -> Vec<String> {
        let mut rows: Vec<String> = Vec::new();
        rows.push(self.draw_text());
        rows
    }
}

} // verus!
