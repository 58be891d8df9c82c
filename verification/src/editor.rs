//! The editor controller: a state machine over the view, the bars, and
//! the quit/save prompts. It dispatches structured commands, counts quit
//! confirmations on a modified buffer, and turns save commands into
//! requests that the caller carries out against the file system and then
//! reports back.

use crate::command::{Command, Edit, InputEvent, Move, System};
use crate::commandbar::{commandbar_edit_post, CommandBar};
use crate::messagebar::{Messagebar, MESSAGE_DURATION_MS};
use crate::sat_add;
use crate::strutil::{decimal_of, to_decimal_string};
use crate::position::Position;
use crate::size::Size;
use crate::statusbar::StatusBar;
use crate::uicomponent::UIComponent;
use crate::view::{cursor_in_window, edit_post, move_post, View};
use vstd::prelude::*;
use vstd::view::View as _;

verus! {

/// How many quit commands in a row a modified buffer takes before the
/// editor really quits.
pub const QUIT_TIMES: u8 = 3;

/// A save the controller asks its caller to perform: write `content` to
/// the file named `file_name`, then report the outcome through
/// `finish_save` (`rebind` says whether this came from the save-as
/// prompt, so success rebinds the buffer's file association).
pub struct SaveRequest {
    pub file_name: String,
    pub rebind: bool,
    pub content: String,
}

/// The warning shown while quit confirmations remain on a modified
/// buffer.
pub open spec fn remaining_quit_message(remaining: nat) -> Seq<char> {
    "WARNING! File has unsaved changes. Press Ctrl-q "@ + decimal_of(remaining)
        + " more times to quit."@
}

/// The quit-counter reset that every command other than quit and resize
/// performs: the counter returns to zero, and a lingering confirmation
/// message is cleared (timestamped with the given clock reading); with no
/// confirmation pending, the message bar is untouched.
pub open spec fn quit_count_reset(e0: Editor, e1: Editor, now_ms: u64) -> bool {
    &&& e1.spec_quit_times() == 0
    &&& (e0.spec_quit_times() > 0 ==> {
        &&& e1.spec_message_bar().spec_text() == Seq::<char>::empty()
        &&& e1.spec_message_bar().spec_updated_at() == now_ms
    })
    &&& (e0.spec_quit_times() == 0 ==> {
        &&& e1.spec_message_bar().spec_text() == e0.spec_message_bar().spec_text()
        &&& e1.spec_message_bar().spec_updated_at() == e0.spec_message_bar().spec_updated_at()
    })
}

/// The effect of propagating a terminal size: the view gets the area
/// above the two bar rows and re-scrolls the unchanged cursor into view;
/// every bar becomes one row of the new width and is marked for redraw;
/// nothing else moves.
pub open spec fn resize_post(e0: Editor, e1: Editor, size: Size) -> bool {
    &&& e1.spec_terminal_size() == size
    &&& e1.spec_view().spec_size() == (Size {
        columns: size.columns,
        rows: if size.rows >= 2 {
            (size.rows - 2) as usize
        } else {
            0
        },
    })
    &&& e1.spec_view().spec_buffer() == e0.spec_view().spec_buffer()
    &&& e1.spec_view().spec_text_location() == e0.spec_view().spec_text_location()
    &&& e1.spec_view().spec_needs_redraw() == true
    &&& cursor_in_window(e1.spec_view())
    &&& e1.spec_status_bar().spec_size() == (Size { columns: size.columns, rows: 1 })
    &&& e1.spec_status_bar().spec_needs_redraw() == true
    &&& e1.spec_status_bar().spec_status() == e0.spec_status_bar().spec_status()
    &&& e1.spec_message_bar().spec_flag() == true
    &&& e1.spec_message_bar().spec_text() == e0.spec_message_bar().spec_text()
    &&& e1.spec_message_bar().spec_updated_at() == e0.spec_message_bar().spec_updated_at()
    &&& (e1.spec_command_bar() is Some <==> e0.spec_command_bar() is Some)
    &&& (e0.spec_command_bar() is Some ==> {
        &&& e1.spec_command_bar().unwrap().spec_size() == (Size {
            columns: size.columns,
            rows: 1,
        })
        &&& e1.spec_command_bar().unwrap().spec_needs_redraw() == true
        &&& e1.spec_command_bar().unwrap().spec_prompt() == e0.spec_command_bar().unwrap().spec_prompt()
        &&& e1.spec_command_bar().unwrap().spec_value() == e0.spec_command_bar().unwrap().spec_value()
    })
    &&& e1.spec_should_quit() == e0.spec_should_quit()
    &&& e1.spec_quit_times() == e0.spec_quit_times()
    &&& e1.spec_title() == e0.spec_title()
}

/// The full effect of dispatching one command at clock reading `now_ms`,
/// including the save request handed back, if any. Quit and resize act
/// directly; every other command first resets the quit counter. While
/// the save prompt is open, edits go to the prompt's typed value, enter
/// submits it as a save-as request, escape aborts it, and quit and
/// movement are ignored.
pub open spec fn process_command_post(
    e0: Editor,
    e1: Editor,
    command: Command,
    r: Option<SaveRequest>,
    now_ms: u64,
) -> bool {
    &&& e1.spec_terminal_size() == (match command {
        Command::System(System::Resize(size)) => size,
        _ => e0.spec_terminal_size(),
    })
    &&& e1.spec_title() == e0.spec_title()
    &&& e1.spec_status_bar().spec_status() == e0.spec_status_bar().spec_status()
    &&& match command {
        Command::System(System::Quit) => {
            &&& r is None
            &&& (e0.spec_command_bar() is Some ==> e1 == e0)
            &&& (e0.spec_command_bar() is None ==> {
                &&& e1.spec_view() == e0.spec_view()
                &&& e1.spec_command_bar() == e0.spec_command_bar()
                &&& ((!e0.spec_view().spec_buffer().dirty || e0.spec_quit_times() + 1
                    == QUIT_TIMES) ==> {
                    &&& e1.spec_should_quit() == true
                    &&& e1.spec_quit_times() == e0.spec_quit_times()
                    &&& e1.spec_message_bar() == e0.spec_message_bar()
                })
                &&& ((e0.spec_view().spec_buffer().dirty && e0.spec_quit_times() + 1
                    != QUIT_TIMES) ==> {
                    &&& e1.spec_should_quit() == e0.spec_should_quit()
                    &&& e1.spec_quit_times() == e0.spec_quit_times() + 1
                    &&& e1.spec_message_bar().spec_text() == remaining_quit_message(
                        (QUIT_TIMES - e0.spec_quit_times() - 1) as nat,
                    )
                    &&& e1.spec_message_bar().spec_updated_at() == now_ms
                })
            })
        },
        Command::System(System::Resize(size)) => {
            &&& r is None
            &&& resize_post(e0, e1, size)
        },
        Command::System(System::Save) => {
            &&& quit_count_reset(e0, e1, now_ms)
            &&& e1.spec_should_quit() == e0.spec_should_quit()
            &&& (e0.spec_command_bar() is Some ==> {
                &&& r is None
                &&& e1.spec_view() == e0.spec_view()
                &&& e1.spec_command_bar() == e0.spec_command_bar()
            })
            &&& (e0.spec_command_bar() is None ==> {
                &&& e1.spec_view().spec_buffer() == e0.spec_view().spec_buffer()
                &&& (e0.spec_view().spec_buffer().file_info.path_spec() is Some ==> {
                    &&& r is Some
                    &&& r.unwrap().file_name@ == e0.spec_view().spec_buffer().file_info.path_spec().unwrap()
                    &&& r.unwrap().rebind == false
                    &&& r.unwrap().content@ == crate::buffer::join_lines(
                        e0.spec_view().spec_buffer().content_seq(),
                    )
                    &&& e1.spec_command_bar() == e0.spec_command_bar()
                    &&& e1.spec_view() == e0.spec_view()
                })
                &&& (e0.spec_view().spec_buffer().file_info.path_spec() is None ==> {
                    &&& r is None
                    &&& e1.spec_command_bar() is Some
                    &&& e1.spec_command_bar().unwrap().spec_prompt() == "Save as:"@
                    &&& e1.spec_command_bar().unwrap().spec_value() == Seq::<Seq<char>>::empty()
                    &&& e1.spec_command_bar().unwrap().spec_size() == (Size {
                        columns: e0.spec_terminal_size().columns,
                        rows: 1,
                    })
                    &&& e1.spec_command_bar().unwrap().spec_needs_redraw() == true
                    &&& e1.spec_view() == e0.spec_view()
                })
            })
        },
        Command::System(System::Dismiss) => {
            &&& r is None
            &&& e1.spec_quit_times() == 0
            &&& e1.spec_should_quit() == e0.spec_should_quit()
            &&& e1.spec_view() == e0.spec_view()
            &&& (e0.spec_command_bar() is Some ==> {
                &&& e1.spec_command_bar() is None
                &&& e1.spec_message_bar().spec_text() == "save aborted"@
                &&& e1.spec_message_bar().spec_updated_at() == now_ms
            })
            &&& (e0.spec_command_bar() is None ==> {
                &&& e1.spec_command_bar() == e0.spec_command_bar()
                &&& quit_count_reset(e0, e1, now_ms)
            })
        },
        Command::Edit(edit_command) => {
            &&& quit_count_reset(e0, e1, now_ms)
            &&& e1.spec_should_quit() == e0.spec_should_quit()
            &&& (e0.spec_command_bar() is Some ==> match edit_command {
                Edit::InsertNewline => {
                    &&& r is Some
                    &&& r.unwrap().file_name@ == e0.spec_command_bar().unwrap().spec_value_content()
                    &&& r.unwrap().rebind == true
                    &&& r.unwrap().content@ == crate::buffer::join_lines(
                        e0.spec_view().spec_buffer().content_seq(),
                    )
                    &&& e1.spec_command_bar() is None
                    &&& e1.spec_view() == e0.spec_view()
                },
                _ => {
                    &&& r is None
                    &&& e1.spec_command_bar() is Some
                    &&& commandbar_edit_post(
                        e0.spec_command_bar().unwrap(),
                        e1.spec_command_bar().unwrap(),
                        edit_command,
                    )
                    &&& e1.spec_view() == e0.spec_view()
                },
            })
            &&& (e0.spec_command_bar() is None ==> {
                &&& r is None
                &&& edit_post(e0.spec_view(), e1.spec_view(), edit_command)
                &&& e1.spec_command_bar() == e0.spec_command_bar()
            })
        },
        Command::Move(move_command) => {
            &&& r is None
            &&& quit_count_reset(e0, e1, now_ms)
            &&& e1.spec_should_quit() == e0.spec_should_quit()
            &&& e1.spec_command_bar() == e0.spec_command_bar()
            &&& (e0.spec_command_bar() is None ==> move_post(
                e0.spec_view(),
                e1.spec_view(),
                move_command,
            ))
            &&& (e0.spec_command_bar() is Some ==> e1.spec_view() == e0.spec_view())
        },
    }
}

/// The top-level editor state.
pub struct Editor {
    should_quit: bool,
    view: View,
    status_bar: StatusBar,
    message_bar: Messagebar,
    command_bar: Option<CommandBar>,
    terminal_size: Size,
    title: String,
    quit_times: u8,
}

impl Editor {
    /// Whether a quit was decided.
    pub closed spec fn spec_should_quit(self) -> bool {
        self.should_quit
    }

    /// The text view.
    pub closed spec fn spec_view(self) -> View {
        self.view
    }

    /// The status bar.
    pub closed spec fn spec_status_bar(self) -> StatusBar {
        self.status_bar
    }

    /// The message bar.
    pub closed spec fn spec_message_bar(self) -> Messagebar {
        self.message_bar
    }

    /// The save-prompt bar, while one is active.
    pub closed spec fn spec_command_bar(self) -> Option<CommandBar> {
        self.command_bar
    }

    /// The terminal's size.
    pub closed spec fn spec_terminal_size(self) -> Size {
        self.terminal_size
    }

    /// The window title last recorded as applied.
    pub closed spec fn spec_title(self) -> Seq<char> {
        self.title@
    }

    /// How many quit commands in a row were seen on a modified buffer.
    pub closed spec fn spec_quit_times(self) -> u8 {
        self.quit_times
    }

    /// The editor's invariant: the cursor is valid and the quit counter
    /// has not reached its bound.
    pub open spec fn wf(self) -> bool {
        &&& self.spec_view().cursor_valid()
        &&& self.spec_quit_times() < QUIT_TIMES
    }

    /// Whether a quit was decided.
    pub fn should_quit(&self) -> (r: bool)
        ensures
            r == self.spec_should_quit(),
    {
        self.should_quit
    }

    /// Shared read access to the view.
    pub fn view(&self) -> (r: &View)
        ensures
            *r == self.spec_view(),
    {
        &self.view
    }

    /// Shared read access to the message bar.
    pub fn message_bar(&self) -> (r: &Messagebar)
        ensures
            *r == self.spec_message_bar(),
    {
        &self.message_bar
    }

    /// Shared read access to the status bar.
    pub fn status_bar(&self) -> (r: &StatusBar)
        ensures
            *r == self.spec_status_bar(),
    {
        &self.status_bar
    }

    /// Shared read access to the save prompt, while one is active.
    pub fn command_bar(&self) -> (r: &Option<CommandBar>)
        ensures
            *r == self.spec_command_bar(),
    {
        &self.command_bar
    }

    /// The terminal size last propagated through `resize`.
    pub fn terminal_size(&self) -> (r: Size)
        ensures
            r == self.spec_terminal_size(),
    {
        self.terminal_size
    }

    /// Renders the bottom row: the save prompt while one is open, the
    /// message bar otherwise (ticked with the given clock reading so an
    /// expired message clears). Returns the row to print, or nothing
    /// when no redraw is needed.
    pub fn render_bottom_bar(&mut self, now_ms: u64) -> (r: Option<Vec<String>>)
        ensures
            final(self).spec_view() == old(self).spec_view(),
            final(self).spec_status_bar() == old(self).spec_status_bar(),
            final(self).spec_should_quit() == old(self).spec_should_quit(),
            final(self).spec_quit_times() == old(self).spec_quit_times(),
            final(self).spec_terminal_size() == old(self).spec_terminal_size(),
            final(self).spec_title() == old(self).spec_title(),
            final(self).spec_command_bar() is Some <==> old(self).spec_command_bar() is Some,
            match old(self).spec_command_bar() {
                Some(bar) => {
                    &&& (r is Some <==> bar.spec_needs_redraw())
                    &&& match r {
                        Some(rows) => {
                            &&& rows@.len() == 1
                            &&& rows@[0]@ == crate::commandbar::commandbar_line_spec(
                                bar.spec_prompt(),
                                bar.spec_value(),
                                bar.spec_size().columns as nat,
                            )
                        },
                        None => true,
                    }
                    &&& final(self).spec_command_bar().unwrap().spec_prompt() == bar.spec_prompt()
                    &&& final(self).spec_command_bar().unwrap().spec_value() == bar.spec_value()
                },
                None => {
                    &&& final(self).spec_message_bar().spec_text() == old(
                        self,
                    ).spec_message_bar().spec_text()
                    &&& (r is Some <==> ((now_ms > old(self).spec_message_bar().spec_updated_at()
                        + MESSAGE_DURATION_MS && !old(
                        self,
                    ).spec_message_bar().spec_cleared_after_expiry()) || old(
                        self,
                    ).spec_message_bar().spec_flag()))
                    &&& match r {
                        Some(rows) => {
                            &&& rows@.len() == 1
                            &&& rows@[0]@ == (if final(self).spec_message_bar().is_expired() {
                                Seq::<char>::empty()
                            } else {
                                old(self).spec_message_bar().spec_text()
                            })
                        },
                        None => true,
                    }
                },
            },
    {
        let mut bar_taken = self.command_bar.take();
        let r = match &mut bar_taken {
            Some(command_bar) => {
                if command_bar.needs_redraw() {
                    let text = command_bar.draw_text();
                    command_bar.mark_redraw(false);
                    let mut rows: Vec<String> = Vec::new();
                    rows.push(text);
                    Some(rows)
                } else {
                    None
                }
            },
            None => {
                self.message_bar.tick(now_ms);
                if self.message_bar.needs_redraw() {
                    let text = self.message_bar.draw_text();
                    self.message_bar.mark_redraw(false);
                    let mut rows: Vec<String> = Vec::new();
                    rows.push(text);
                    Some(rows)
                } else {
                    None
                }
            },
        };
        self.command_bar = bar_taken;
        r
    }

    /// Renders the status bar row, or nothing when no redraw is needed.
    pub fn render_status_bar(&mut self) -> (r: Option<Vec<String>>)
        ensures
            final(self).spec_view() == old(self).spec_view(),
            final(self).spec_message_bar() == old(self).spec_message_bar(),
            final(self).spec_command_bar() == old(self).spec_command_bar(),
            final(self).spec_should_quit() == old(self).spec_should_quit(),
            final(self).spec_quit_times() == old(self).spec_quit_times(),
            final(self).spec_terminal_size() == old(self).spec_terminal_size(),
            final(self).spec_title() == old(self).spec_title(),
            final(self).spec_status_bar().spec_status() == old(
                self,
            ).spec_status_bar().spec_status(),
            r is Some <==> old(self).spec_status_bar().spec_needs_redraw(),
            match r {
                Some(rows) => {
                    &&& rows@.len() == 1
                    &&& rows@[0]@ == crate::statusbar::status_line_spec(
                        old(self).spec_status_bar().spec_status(),
                        old(self).spec_status_bar().spec_size().columns as nat,
                    )
                },
                None => true,
            },
    {
        if self.status_bar.needs_redraw() {
            let text = self.status_bar.draw_text();
            self.status_bar.mark_redraw(false);
            let mut rows: Vec<String> = Vec::new();
            rows.push(text);
            Some(rows)
        } else {
            None
        }
    }

    /// Renders the text area: one string per viewport row, or nothing
    /// when no redraw is needed.
    pub fn render_view(&mut self) -> (r: Option<Vec<String>>)
        ensures
            final(self).spec_view().spec_buffer() == old(self).spec_view().spec_buffer(),
            final(self).spec_view().spec_text_location() == old(
                self,
            ).spec_view().spec_text_location(),
            final(self).spec_view().spec_scroll_offset() == old(
                self,
            ).spec_view().spec_scroll_offset(),
            final(self).spec_view().spec_size() == old(self).spec_view().spec_size(),
            final(self).spec_message_bar() == old(self).spec_message_bar(),
            final(self).spec_status_bar() == old(self).spec_status_bar(),
            final(self).spec_command_bar() == old(self).spec_command_bar(),
            final(self).spec_should_quit() == old(self).spec_should_quit(),
            final(self).spec_quit_times() == old(self).spec_quit_times(),
            final(self).spec_terminal_size() == old(self).spec_terminal_size(),
            final(self).spec_title() == old(self).spec_title(),
            match r {
                Some(rows) => {
                    &&& rows@.len() == old(self).spec_view().spec_size().rows
                    &&& forall|i: int|
                        0 <= i < rows@.len() ==> (#[trigger] rows@[i])@ == old(
                            self,
                        ).spec_view().row_text_spec(i as nat)
                },
                None => true,
            },
    {
        if self.view.needs_redraw() {
            let rows = self.view.draw_rows();
            self.view.set_needs_redraw(false);
            Some(rows)
        } else {
            None
        }
    }

    /// Where the terminal caret belongs: at the end of the prompt's
    /// typed value while the prompt is open, else at the cursor's place
    /// inside the viewport.
    pub fn caret_screen_position(&self) -> (r: Position)
        ensures
            self.spec_command_bar() is None ==> {
                &&& r.row as nat == (if self.spec_view().cursor_row()
                    >= self.spec_view().spec_scroll_offset().row as nat {
                    (self.spec_view().cursor_row()
                        - self.spec_view().spec_scroll_offset().row as nat) as nat
                } else {
                    0
                })
                &&& r.column as nat == (if self.spec_view().cursor_col()
                    >= self.spec_view().spec_scroll_offset().column as nat {
                    (self.spec_view().cursor_col()
                        - self.spec_view().spec_scroll_offset().column as nat) as nat
                } else {
                    0
                })
            },
            self.spec_command_bar() is Some ==> {
                &&& r.row as nat == (if self.spec_terminal_size().rows >= 1 {
                    (self.spec_terminal_size().rows - 1) as nat
                } else {
                    0
                })
                &&& r.column as nat == {
                    let bar = self.spec_command_bar().unwrap();
                    let max_width = sat_add(bar.spec_prompt().len(), bar.spec_value().len());
                    if max_width <= bar.spec_size().columns as nat {
                        max_width
                    } else {
                        bar.spec_size().columns as nat
                    }
                }
            },
    {
        match &self.command_bar {
            Some(command_bar) => Position {
                column: command_bar.caret_position_end(),
                row: self.terminal_size.rows.saturating_sub(1),
            },
            None => self.view.caret_position(),
        }
    }

    /// Propagates a new terminal size: the view gets the area above the
    /// two bar rows, and every bar is resized to one row.
    pub fn resize(&mut self, size: Size)
        ensures
            resize_post(*old(self), *final(self), size),
    {
        self.terminal_size = size;
        self.view.resize(Size { columns: size.columns, rows: size.rows.saturating_sub(2) });
        self.message_bar.resize(Size { columns: size.columns, rows: 1 });
        self.status_bar.resize(Size { columns: size.columns, rows: 1 });
        let mut bar_taken = self.command_bar.take();
        match &mut bar_taken {
            Some(command_bar) => {
                command_bar.resize(Size { columns: size.columns, rows: 1 });
            },
            None => {},
        }
        self.command_bar = bar_taken;
    }

    /// One quit command: an unmodified buffer quits at once; a modified
    /// one quits only on the last allowed confirmation, and otherwise
    /// counts the attempt.
    /// A quit that merely counts also tells the user how many more
    /// presses it takes.
    fn handle_quit(&mut self, now_ms: u64)
        requires
            old(self).wf(),
        ensures
            final(self).wf(),
            final(self).spec_view() == old(self).spec_view(),
            final(self).spec_command_bar() == old(self).spec_command_bar(),
            final(self).spec_status_bar() == old(self).spec_status_bar(),
            final(self).spec_terminal_size() == old(self).spec_terminal_size(),
            final(self).spec_title() == old(self).spec_title(),
            (!old(self).spec_view().spec_buffer().dirty || old(self).spec_quit_times() + 1
                == QUIT_TIMES) ==> {
                &&& final(self).spec_should_quit() == true
                &&& final(self).spec_quit_times() == old(self).spec_quit_times()
                &&& final(self).spec_message_bar() == old(self).spec_message_bar()
            },
            (old(self).spec_view().spec_buffer().dirty && old(self).spec_quit_times() + 1
                != QUIT_TIMES) ==> {
                &&& final(self).spec_should_quit() == old(self).spec_should_quit()
                &&& final(self).spec_quit_times() == old(self).spec_quit_times() + 1
                &&& final(self).spec_message_bar().spec_text() == remaining_quit_message(
                    (QUIT_TIMES - old(self).spec_quit_times() - 1) as nat,
                )
                &&& final(self).spec_message_bar().spec_updated_at() == now_ms
            },
    {
        let modified = self.view.buffer().dirty;
        if !modified || self.quit_times + 1 == QUIT_TIMES {
            self.should_quit = true;
        } else {
            let remaining = (QUIT_TIMES - self.quit_times - 1) as usize;
            self.quit_times = self.quit_times + 1;
            let warning = build_remaining_quit_message(remaining);
            self.message_bar.update_message(warning.as_str(), now_ms);
        }
    }

    /// Any command other than quit and resize resets the quit counter
    /// and clears a lingering confirmation message.
    fn reset_quit_times(&mut self, now_ms: u64)
        ensures
            final(self).spec_quit_times() == 0,
            old(self).spec_quit_times() > 0 ==> {
                &&& final(self).spec_message_bar().spec_text() == Seq::<char>::empty()
                &&& final(self).spec_message_bar().spec_updated_at() == now_ms
            },
            old(self).spec_quit_times() == 0 ==> final(self).spec_message_bar() == old(
                self,
            ).spec_message_bar(),
            final(self).spec_view() == old(self).spec_view(),
            final(self).spec_command_bar() == old(self).spec_command_bar(),
            final(self).spec_status_bar() == old(self).spec_status_bar(),
            final(self).spec_should_quit() == old(self).spec_should_quit(),
            final(self).spec_terminal_size() == old(self).spec_terminal_size(),
            final(self).spec_title() == old(self).spec_title(),
    {
        if self.quit_times > 0 {
            self.quit_times = 0;
            self.message_bar.update_message("", now_ms);
            proof {
                reveal_strlit("");
                assert(""@ =~= Seq::<char>::empty());
            }
        }
    }

    /// Opens the save-as prompt: a one-row command bar asking for a name.
    fn show_prompt(&mut self)
        ensures
            final(self).spec_command_bar() is Some,
            final(self).spec_command_bar().unwrap().spec_prompt() == "Save as:"@,
            final(self).spec_command_bar().unwrap().spec_value() == Seq::<Seq<char>>::empty(),
            final(self).spec_command_bar().unwrap().spec_size() == (Size {
                columns: old(self).spec_terminal_size().columns,
                rows: 1,
            }),
            final(self).spec_command_bar().unwrap().spec_needs_redraw() == true,
            final(self).spec_view() == old(self).spec_view(),
            final(self).spec_message_bar() == old(self).spec_message_bar(),
            final(self).spec_status_bar() == old(self).spec_status_bar(),
            final(self).spec_should_quit() == old(self).spec_should_quit(),
            final(self).spec_quit_times() == old(self).spec_quit_times(),
            final(self).spec_terminal_size() == old(self).spec_terminal_size(),
            final(self).spec_title() == old(self).spec_title(),
    {
        let mut command_bar = CommandBar::default();
        command_bar.set_prompt("Save as:");
        command_bar.resize(Size { columns: self.terminal_size.columns, rows: 1 });
        self.command_bar = Some(command_bar);
    }

    /// Closes the prompt and lets the message bar take its row back.
    fn dismiss_prompt(&mut self)
        ensures
            final(self).spec_command_bar() is None,
            final(self).spec_message_bar().spec_text() == old(self).spec_message_bar().spec_text(),
            final(self).spec_message_bar().spec_updated_at() == old(
                self,
            ).spec_message_bar().spec_updated_at(),
            final(self).spec_view() == old(self).spec_view(),
            final(self).spec_status_bar() == old(self).spec_status_bar(),
            final(self).spec_should_quit() == old(self).spec_should_quit(),
            final(self).spec_quit_times() == old(self).spec_quit_times(),
            final(self).spec_terminal_size() == old(self).spec_terminal_size(),
            final(self).spec_title() == old(self).spec_title(),
    {
        self.command_bar = None;
        self.message_bar.mark_redraw(true);
    }

    /// One save command: with a file association, asks the caller to
    /// write in place; without one, opens the save-as prompt.
    fn handle_save(&mut self) -> (r: Option<SaveRequest>)
        ensures
            old(self).spec_view().spec_buffer().file_info.path_spec() is Some ==> {
                &&& *final(self) == *old(self)
                &&& r is Some
                &&& r.unwrap().file_name@ == old(
                    self,
                ).spec_view().spec_buffer().file_info.path_spec().unwrap()
                &&& r.unwrap().rebind == false
                &&& r.unwrap().content@ == crate::buffer::join_lines(
                    old(self).spec_view().spec_buffer().content_seq(),
                )
            },
            old(self).spec_view().spec_buffer().file_info.path_spec() is None ==> {
                &&& r is None
                &&& final(self).spec_command_bar() is Some
                &&& final(self).spec_command_bar().unwrap().spec_prompt() == "Save as:"@
                &&& final(self).spec_command_bar().unwrap().spec_value() == Seq::<
                    Seq<char>,
                >::empty()
                &&& final(self).spec_command_bar().unwrap().spec_size() == (Size {
                    columns: old(self).spec_terminal_size().columns,
                    rows: 1,
                })
                &&& final(self).spec_command_bar().unwrap().spec_needs_redraw() == true
                &&& final(self).spec_view() == old(self).spec_view()
                &&& final(self).spec_message_bar() == old(self).spec_message_bar()
                &&& final(self).spec_should_quit() == old(self).spec_should_quit()
                &&& final(self).spec_quit_times() == old(self).spec_quit_times()
                &&& final(self).spec_terminal_size() == old(self).spec_terminal_size()
                &&& final(self).spec_title() == old(self).spec_title()
                &&& final(self).spec_status_bar() == old(self).spec_status_bar()
            },
    {
        if self.view.is_file_loaded() {
            let file_name = match self.view.buffer().file_info.get_path() {
                Some(p) => p.to_owned(),
                None => {
                    return None;
                },
            };
            let content = self.view.serialize();
            Some(SaveRequest { file_name, rebind: false, content })
        } else {
            self.show_prompt();
            None
        }
    }

    /// The caller reports how a requested save went: success records the
    /// save (rebinding the association for a save-as) and shows a
    /// confirmation; failure leaves the buffer untouched and shows an
    /// error. Either message is timestamped with the given clock reading.
    pub fn finish_save(&mut self, file_name: Option<&str>, success: bool, now_ms: u64)
        ensures
            final(self).spec_view().spec_buffer().lines@ == old(
                self,
            ).spec_view().spec_buffer().lines@,
            final(self).spec_view().spec_text_location() == old(
                self,
            ).spec_view().spec_text_location(),
            success ==> final(self).spec_view().spec_buffer().dirty == false,
            success ==> final(self).spec_message_bar().spec_text() == "File saved successfully."@,
            success ==> match file_name {
                Some(name) => final(self).spec_view().spec_buffer().file_info.path_spec() == Some(
                    name@,
                ),
                None => final(self).spec_view().spec_buffer().file_info == old(
                    self,
                ).spec_view().spec_buffer().file_info,
            },
            !success ==> {
                &&& final(self).spec_view() == old(self).spec_view()
                &&& final(self).spec_message_bar().spec_text() == "Error writing file"@
            },
            final(self).spec_message_bar().spec_updated_at() == now_ms,
            final(self).spec_should_quit() == old(self).spec_should_quit(),
            final(self).spec_quit_times() == old(self).spec_quit_times(),
            final(self).spec_command_bar() == old(self).spec_command_bar(),
            final(self).spec_terminal_size() == old(self).spec_terminal_size(),
            final(self).spec_title() == old(self).spec_title(),
    {
        if success {
            match file_name {
                Some(name) => self.view.save_as(name),
                None => self.view.save(),
            }
            self.message_bar.update_message("File saved successfully.", now_ms);
        } else {
            self.message_bar.update_message("Error writing file", now_ms);
        }
    }

    /// Dispatches one command. Quit and resize act directly; anything
    /// else first resets the quit counter. While the save prompt is
    /// open, edits go to the prompt, enter submits it as a save-as
    /// request, escape aborts it, and quit and movement are ignored.
    /// The returned request, if any, is a save for the caller to
    /// perform and report back.
    pub fn process_command(&mut self, command: Command, now_ms: u64) -> (r: Option<SaveRequest>)
        requires
            old(self).wf(),
        ensures
            final(self).wf(),
            process_command_post(*old(self), *final(self), command, r, now_ms),
    {
        match command {
            Command::System(System::Quit) => {
                if self.command_bar.is_none() {
                    self.handle_quit(now_ms);
                }
            },
            Command::System(System::Resize(size)) => self.resize(size),
            _ => self.reset_quit_times(now_ms),
        }
        match command {
            Command::System(System::Quit) => None,
            Command::System(System::Resize(_)) => None,
            Command::System(System::Save) => {
                if self.command_bar.is_none() {
                    self.handle_save()
                } else {
                    None
                }
            },
            Command::System(System::Dismiss) => {
                if self.command_bar.is_some() {
                    self.dismiss_prompt();
                    self.message_bar.update_message("save aborted", now_ms);
                }
                None
            },
            Command::Edit(edit_command) => {
                if self.command_bar.is_some() {
                    if matches!(edit_command, Edit::InsertNewline) {
                        let file_name = match &self.command_bar {
                            Some(command_bar) => command_bar.value(),
                            None => String::new(),
                        };
                        self.dismiss_prompt();
                        let content = self.view.serialize();
                        Some(SaveRequest { file_name, rebind: true, content })
                    } else {
                        let mut bar_taken = self.command_bar.take();
                        match &mut bar_taken {
                            Some(command_bar) => command_bar.handle_edit_command(edit_command),
                            None => {},
                        }
                        self.command_bar = bar_taken;
                        None
                    }
                } else {
                    self.view.handle_edit_command(edit_command);
                    None
                }
            },
            Command::Move(move_command) => {
                if self.command_bar.is_none() {
                    self.view.handle_move_command(move_command);
                }
                None
            },
        }
    }

    /// Filters one raw input event — only key presses and resizes are
    /// processed, and unrecognized input is discarded — and dispatches
    /// the resulting command, if any.
    pub fn evaluate_event(&mut self, event: InputEvent, now_ms: u64) -> (r: Option<SaveRequest>)
        requires
            old(self).wf(),
        ensures
            final(self).wf(),
            match event {
                InputEvent::Key(key) => {
                    &&& (!key.is_press ==> {
                        &&& *final(self) == *old(self)
                        &&& r is None
                    })
                    &&& (key.is_press && Command::spec_try_from(event) is Err ==> {
                        &&& *final(self) == *old(self)
                        &&& r is None
                    })
                    &&& (key.is_press && Command::spec_try_from(event) is Ok
                        ==> process_command_post(
                        *old(self),
                        *final(self),
                        Command::spec_try_from(event).unwrap(),
                        r,
                        now_ms,
                    ))
                },
                InputEvent::Resize(_) => process_command_post(
                    *old(self),
                    *final(self),
                    Command::spec_try_from(event).unwrap(),
                    r,
                    now_ms,
                ),
                InputEvent::Other => {
                    &&& *final(self) == *old(self)
                    &&& r is None
                },
            },
    {
        let should_process = match event {
            InputEvent::Key(key) => key.is_press,
            InputEvent::Resize(_) => true,
            InputEvent::Other => false,
        };
        if !should_process {
            return None;
        }
        match Command::try_from(event) {
            Ok(command) => self.process_command(command, now_ms),
            Err(_) => None,
        }
    }

    /// Recomputes the status summary for the status bar and proposes a
    /// window title. The caller applies the title to the terminal and,
    /// on success, records it with `record_title`; an unchanged title
    /// proposes nothing.
    pub fn refresh_statusbar(&mut self) -> (r: Option<String>)
        ensures
            final(self).spec_view() == old(self).spec_view(),
            final(self).spec_command_bar() == old(self).spec_command_bar(),
            final(self).spec_message_bar() == old(self).spec_message_bar(),
            final(self).spec_should_quit() == old(self).spec_should_quit(),
            final(self).spec_quit_times() == old(self).spec_quit_times(),
            final(self).spec_terminal_size() == old(self).spec_terminal_size(),
            final(self).spec_title() == old(self).spec_title(),
            final(self).spec_status_bar().spec_status().total_lines == old(
                self,
            ).spec_view().spec_buffer().lines@.len(),
            final(self).spec_status_bar().spec_status().current_line_index == old(
                self,
            ).spec_view().spec_text_location().line_index,
            final(self).spec_status_bar().spec_status().is_modified == old(
                self,
            ).spec_view().spec_buffer().dirty,
            final(self).spec_status_bar().spec_status().file_name@
                == crate::fileinfo::display_name_spec(
                old(self).spec_view().spec_buffer().file_info.path_spec(),
            ),
            match r {
                Some(title) => {
                    &&& title@ == crate::fileinfo::display_name_spec(
                        old(self).spec_view().spec_buffer().file_info.path_spec(),
                    ) + " - hecto"@
                    &&& title@ != old(self).spec_title()
                },
                None => crate::fileinfo::display_name_spec(
                    old(self).spec_view().spec_buffer().file_info.path_spec(),
                ) + " - hecto"@ == old(self).spec_title(),
            },
    {
        let status = self.view.get_status();
        let mut title = status.file_name.clone();
        title.append(" - hecto");
        self.status_bar.update_status(status);
        if title == self.title {
            None
        } else {
            Some(title)
        }
    }

    /// Records that the given window title was applied to the terminal.
    pub fn record_title(&mut self, title: &str)
        ensures
            final(self).spec_title() == title@,
            final(self).spec_view() == old(self).spec_view(),
            final(self).spec_command_bar() == old(self).spec_command_bar(),
            final(self).spec_message_bar() == old(self).spec_message_bar(),
            final(self).spec_status_bar() == old(self).spec_status_bar(),
            final(self).spec_should_quit() == old(self).spec_should_quit(),
            final(self).spec_quit_times() == old(self).spec_quit_times(),
            final(self).spec_terminal_size() == old(self).spec_terminal_size(),
    {
        self.title = title.to_owned();
    }

    /// Replaces the view's buffer with loaded file text; the caller reads
    /// the file.
    pub fn load_file(&mut self, file_name: &str, contents: &str)
        requires
            old(self).wf(),
        ensures
            final(self).wf(),
            final(self).spec_view().spec_buffer().content_seq() == crate::buffer::split_lines(
                contents@,
            ),
            final(self).spec_view().spec_buffer().file_info.path_spec() == Some(file_name@),
            final(self).spec_view().spec_buffer().dirty == false,
            final(self).spec_command_bar() == old(self).spec_command_bar(),
            final(self).spec_message_bar() == old(self).spec_message_bar(),
            final(self).spec_status_bar() == old(self).spec_status_bar(),
            final(self).spec_should_quit() == old(self).spec_should_quit(),
            final(self).spec_quit_times() == old(self).spec_quit_times(),
            final(self).spec_terminal_size() == old(self).spec_terminal_size(),
            final(self).spec_title() == old(self).spec_title(),
    {
        self.view.load(file_name, contents);
    }

    /// Shows a message on the message bar, timestamped with the given
    /// clock reading.
    pub fn update_message(&mut self, new_message: &str, now_ms: u64)
        ensures
            final(self).spec_message_bar().spec_text() == new_message@,
            final(self).spec_message_bar().spec_updated_at() == now_ms,
            final(self).spec_view() == old(self).spec_view(),
            final(self).spec_command_bar() == old(self).spec_command_bar(),
            final(self).spec_status_bar() == old(self).spec_status_bar(),
            final(self).spec_should_quit() == old(self).spec_should_quit(),
            final(self).spec_quit_times() == old(self).spec_quit_times(),
            final(self).spec_terminal_size() == old(self).spec_terminal_size(),
            final(self).spec_title() == old(self).spec_title(),
    {
        self.message_bar.update_message(new_message, now_ms);
    }
}

/// Builds the remaining-presses warning for the message bar.
fn build_remaining_quit_message(remaining: usize) -> (r: String)
    ensures
        r@ == remaining_quit_message(remaining as nat),
{
    let mut s = String::new();
    s.append("WARNING! File has unsaved changes. Press Ctrl-q ");
    let count = to_decimal_string(remaining);
    s.append(count.as_str());
    s.append(" more times to quit.");
    proof {
        assert(s@ =~= remaining_quit_message(remaining as nat));
    }
    s
}

impl Default for Editor {
    /// A fresh editor: empty view, empty bars, no prompt, no quit
    /// pending.
    fn default() -> (r: Editor)
        ensures
            r.wf(),
            r.spec_should_quit() == false,
            r.spec_view().spec_buffer().lines@.len() == 0,
            r.spec_view().spec_buffer().file_info.path_spec() is None,
            r.spec_view().spec_buffer().dirty == false,
            r.spec_command_bar() is None,
            r.spec_quit_times() == 0,
            r.spec_terminal_size() == (Size { columns: 0, rows: 0 }),
            r.spec_title() == Seq::<char>::empty(),
    {
        Editor {
            should_quit: false,
            view: View::default(),
            status_bar: StatusBar::default(),
            message_bar: Messagebar::default(),
            command_bar: None,
            terminal_size: Size { columns: 0, rows: 0 },
            title: String::new(),
            quit_times: 0,
        }
    }
}

} // verus!

