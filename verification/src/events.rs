use vstd::prelude::*;
use crate::app::{mark_effect, App, InputMode, Status, PAGE_JUMP};
use crate::item::FlagWrite;
use crate::search::{next_target, pattern_ok, prev_target, strictly_ascending, title_matches};
use crate::tracker::Tracker;

verus! {

/// A key event, already decoded from the terminal by the caller.
#[derive(Clone, Copy, Debug)]
pub enum Key {
    Char(char),
    Ctrl(char),
    Backspace,
    Esc,
    Other,
}

/// One event of the merged stream the control loop consumes: a keypress,
/// or a background-sync lifecycle notification. A sync that fails still
/// ends with `Updated`, so the loop never starves.
#[derive(Clone, Copy, Debug)]
pub enum Event {
    Input(Key),
    Updating,
    Updated,
}

/// What the control loop must do after dispatching one event. The
/// controller itself never quits, opens a browser or touches storage: it
/// hands the decision out.
#[derive(Debug, PartialEq)]
pub enum Action {
    /// Nothing left to do for this event.
    Continue,
    /// End the session: the enabled exit key was pressed in normal mode.
    Quit,
    /// Open this URL in the browser, best-effort.
    OpenUrl(String),
    /// Mirror this read-flag change to storage.
    StoreRead(FlagWrite),
    /// A sync finished: query storage and reload the item list.
    Reload,
}

/// The runtime switch for the configured exit key: while the user types
/// into the search box the key must act as a literal character, so the
/// multiplexer disables it and re-enables it on leaving search mode.
pub struct KeyGate {
    pub exit_key: char,
    pub exit_enabled: bool,
}

impl KeyGate {
    /// Whether this key press must end the session.
    pub open spec fn spec_should_exit(self, k: Key) -> bool {
        self.exit_enabled && k == Key::Char(self.exit_key)
    }

    /// A gate for `exit_key`, initially enabled.
    pub fn new(exit_key: char) -> (g: KeyGate)
        ensures
            g.exit_key == exit_key,
            g.exit_enabled,
    {
        KeyGate { exit_key, exit_enabled: true }
    }

    /// Stop the exit key from quitting (entering search mode).
    pub fn disable_exit_key(&mut self)
        ensures
            *final(self) == (KeyGate { exit_enabled: false, ..*old(self) }),
    {
        self.exit_enabled = false;
    }

    /// Let the exit key quit again (leaving search mode).
    pub fn enable_exit_key(&mut self)
        ensures
            *final(self) == (KeyGate { exit_enabled: true, ..*old(self) }),
    {
        self.exit_enabled = true;
    }

    /// Whether this key press must end the session; see
    /// [`KeyGate::spec_should_exit`].
    pub fn should_exit(&self, k: &Key) -> (r: bool)
        ensures
            r == self.spec_should_exit(*k),
    {
        if !self.exit_enabled {
            return false;
        }
        match k {
            Key::Char(c) => *c == self.exit_key,
            _ => false,
        }
    }
}

/// The storage write carried by an action, if any.
pub open spec fn flag_of(r: Action) -> Option<FlagWrite> {
    match r {
        Action::StoreRead(w) => Some(w),
        _ => None,
    }
}

/// A navigation step: the tracker moved to `t`, the newly selected item
/// was marked read (the write handed out through `r`), and the detail pane
/// rewound.
pub open spec fn nav_rel(pre: App, post: App, t: Tracker, r: Action) -> bool {
    &&& post.table == t
    &&& mark_effect(pre.items@, t.selected, true, post.items@, flag_of(r))
    &&& post.reader_scroll == 0
    &&& post == (App {
        items: post.items,
        table: post.table,
        reader_scroll: post.reader_scroll,
        ..pre
    })
    &&& (r is StoreRead || r is Continue)
}

/// A bare read/unread marking of the selected item, without movement.
pub open spec fn mark_rel(pre: App, post: App, v: bool, r: Action) -> bool {
    &&& mark_effect(pre.items@, pre.table.selected, v, post.items@, flag_of(r))
    &&& post == (App { items: post.items, ..pre })
    &&& (r is StoreRead || r is Continue)
}

/// Opening the selection: the state is untouched and the action carries
/// the selected item's URL exactly when there is one.
pub open spec fn open_rel(pre: App, post: App, r: Action) -> bool {
    &&& post == pre
    &&& match pre.table.selected {
        Some(i) => match pre.items@[i as int].url {
            Some(u) => r == Action::OpenUrl(u),
            None => r is Continue,
        },
        None => r is Continue,
    }
}

/// A jump to the next committed match, as `jump_to_next_result` does it.
pub open spec fn jump_next_rel(pre: App, post: App) -> bool {
    &&& (pre.search_results@.len() == 0 ==> post == pre)
    &&& (pre.search_results@.len() > 0 ==> {
        &&& post.table.rows == pre.table.rows
        &&& post.table.selected == Some(next_target(pre.search_results@, pre.table.selected))
        &&& post.reader_scroll == 0
        &&& post == (App { table: post.table, reader_scroll: post.reader_scroll, ..pre })
    })
}

/// A jump to the previous committed match, as `jump_to_prev_result` does
/// it.
pub open spec fn jump_prev_rel(pre: App, post: App) -> bool {
    &&& (pre.search_results@.len() == 0 ==> post == pre)
    &&& (pre.search_results@.len() > 0 ==> {
        &&& post.table.rows == pre.table.rows
        &&& post.table.selected == Some(prev_target(pre.search_results@, pre.table.selected))
        &&& post.reader_scroll == 0
        &&& post == (App { table: post.table, reader_scroll: post.reader_scroll, ..pre })
    })
}

/// One typed character appended to the raw search text, with the live
/// preview recompiled.
pub open spec fn push_rel(pre: App, post: App, c: char) -> bool {
    &&& post.search_input_raw@ == pre.search_input_raw@.push(c)
    &&& (post.search_input is Some <==> pattern_ok(post.search_input_raw@))
    &&& (post.search_input matches Some(q) ==> q@ == post.search_input_raw@)
    &&& post == (App {
        search_input_raw: post.search_input_raw,
        search_input: post.search_input,
        ..pre
    })
}

/// One character removed from the raw search text, with the live preview
/// recompiled.
pub open spec fn pop_rel(pre: App, post: App) -> bool {
    &&& (pre.search_input_raw@.len() == 0 ==> post.search_input_raw@ == pre.search_input_raw@)
    &&& (pre.search_input_raw@.len() > 0 ==> post.search_input_raw@
        == pre.search_input_raw@.drop_last())
    &&& (post.search_input is Some <==> pattern_ok(post.search_input_raw@))
    &&& (post.search_input matches Some(q) ==> q@ == post.search_input_raw@)
    &&& post == (App {
        search_input_raw: post.search_input_raw,
        search_input: post.search_input,
        ..pre
    })
}

/// The raw search text committed: results and query replaced when the
/// pattern compiles, kept when it does not; search mode ends either way.
pub open spec fn submit_rel(pre: App, post: App) -> bool {
    &&& post.input_mode is Normal
    &&& post.search_input_raw@.len() == 0
    &&& (pattern_ok(pre.search_input_raw@) ==> {
        &&& post.search_query matches Some(q) && q@ == pre.search_input_raw@
        &&& strictly_ascending(post.search_results@)
        &&& forall|j: int|
            0 <= j < pre.items@.len() ==> (post.search_results@.contains(j as usize)
                <==> title_matches(pre.search_input_raw@, pre.items@[j]))
    })
    &&& (!pattern_ok(pre.search_input_raw@) ==> post.search_query == pre.search_query
        && post.search_results@ == pre.search_results@)
    &&& post == (App {
        search_query: post.search_query,
        search_results: post.search_results,
        search_input_raw: post.search_input_raw,
        input_mode: InputMode::Normal,
        ..pre
    })
}

/// The toggle of the ephemeral mark on the selected item.
pub open spec fn toggle_mark_rel(pre: App, post: App) -> bool {
    match pre.table.selected {
        Some(i) => {
            &&& (post.marked@.contains(i) <==> !pre.marked@.contains(i))
            &&& forall|x: usize| x != i ==> (post.marked@.contains(x) <==> pre.marked@.contains(x))
            &&& post == (App { marked: post.marked, ..pre })
        },
        None => post == pre,
    }
}

/// Dispatch one event of the merged stream against the session state.
///
/// Sync notifications flip the status (a finished sync asks the caller to
/// reload). In normal mode the enabled exit key quits and every other key
/// maps to one state-machine operation. In search mode keys are literal
/// text — the exit key included, which is why entering search disables the
/// gate and leaving it re-enables it — with Enter committing, Backspace
/// deleting and Escape cancelling.
pub fn handle_event(app: &mut App, gate: &mut KeyGate, ev: Event) -> (r: Action)
    requires
        old(app).wf(),
    ensures
        final(app).wf(),
        match ev {
            Event::Updating => {
                &&& *final(app) == (App { status: Status::Updating, ..*old(app) })
                &&& *final(gate) == *old(gate)
                &&& r is Continue
            },
            Event::Updated => {
                &&& *final(app) == (App { status: Status::Idle, ..*old(app) })
                &&& *final(gate) == *old(gate)
                &&& r is Reload
            },
            Event::Input(k) => match old(app).input_mode {
                InputMode::Normal => if old(gate).spec_should_exit(k) {
                    &&& r is Quit
                    &&& *final(app) == *old(app)
                    &&& *final(gate) == *old(gate)
                } else {
                    match k {
                        Key::Char(c) => if c == 'j' {
                            nav_rel(*old(app), *final(app), old(app).table.spec_next(), r)
                                && *final(gate) == *old(gate)
                        } else if c == 'k' {
                            nav_rel(*old(app), *final(app), old(app).table.spec_previous(), r)
                                && *final(gate) == *old(gate)
                        } else if c == 'r' {
                            mark_rel(*old(app), *final(app), true, r) && *final(gate) == *old(
                                gate,
                            )
                        } else if c == 'u' {
                            mark_rel(*old(app), *final(app), false, r) && *final(gate) == *old(
                                gate,
                            )
                        } else if c == 'o' {
                            open_rel(*old(app), *final(app), r) && *final(gate) == *old(gate)
                        } else if c == 'J' {
                            *final(app) == (App {
                                reader_scroll: final(app).reader_scroll,
                                ..*old(app)
                            }) && final(app).reader_scroll == (if old(app).reader_scroll
                                < u16::MAX {
                                (old(app).reader_scroll + 1) as u16
                            } else {
                                u16::MAX
                            }) && *final(gate) == *old(gate) && r is Continue
                        } else if c == 'K' {
                            *final(app) == (App {
                                reader_scroll: final(app).reader_scroll,
                                ..*old(app)
                            }) && final(app).reader_scroll == (if old(app).reader_scroll > 0 {
                                (old(app).reader_scroll - 1) as u16
                            } else {
                                0u16
                            }) && *final(gate) == *old(gate) && r is Continue
                        } else if c == 'n' {
                            jump_next_rel(*old(app), *final(app)) && *final(gate) == *old(gate)
                                && r is Continue
                        } else if c == 'N' {
                            jump_prev_rel(*old(app), *final(app)) && *final(gate) == *old(gate)
                                && r is Continue
                        } else if c == 'f' {
                            *final(app) == (App {
                                focus_reader: !old(app).focus_reader,
                                ..*old(app)
                            }) && *final(gate) == *old(gate) && r is Continue
                        } else if c == '/' {
                            *final(app) == (App { input_mode: InputMode::Search, ..*old(app) })
                                && *final(gate) == (KeyGate {
                                exit_enabled: false,
                                ..*old(gate)
                            }) && r is Continue
                        } else if c == ' ' {
                            toggle_mark_rel(*old(app), *final(app)) && *final(gate) == *old(gate)
                                && r is Continue
                        } else {
                            *final(app) == *old(app) && *final(gate) == *old(gate)
                                && r is Continue
                        },
                        Key::Ctrl(c) => if c == 'd' {
                            nav_rel(
                                *old(app),
                                *final(app),
                                old(app).table.spec_jump_forward(PAGE_JUMP),
                                r,
                            ) && *final(gate) == *old(gate)
                        } else if c == 'u' {
                            nav_rel(
                                *old(app),
                                *final(app),
                                old(app).table.spec_jump_backward(PAGE_JUMP),
                                r,
                            ) && *final(gate) == *old(gate)
                        } else {
                            *final(app) == *old(app) && *final(gate) == *old(gate)
                                && r is Continue
                        },
                        Key::Esc => {
                            &&& final(app).marked@.len() == 0
                            &&& *final(app) == (App { marked: final(app).marked, ..*old(app) })
                            &&& *final(gate) == *old(gate)
                            &&& r is Continue
                        },
                        _ => *final(app) == *old(app) && *final(gate) == *old(gate)
                            && r is Continue,
                    }
                },
                InputMode::Search => match k {
                    Key::Char(c) => if c == '\n' {
                        submit_rel(*old(app), *final(app)) && *final(gate) == (KeyGate {
                            exit_enabled: true,
                            ..*old(gate)
                        }) && r is Continue
                    } else {
                        push_rel(*old(app), *final(app), c) && *final(gate) == *old(gate)
                            && r is Continue
                    },
                    Key::Backspace => pop_rel(*old(app), *final(app)) && *final(gate) == *old(
                        gate,
                    ) && r is Continue,
                    Key::Esc => {
                        &&& final(app).search_input_raw@.len() == 0
                        &&& *final(app) == (App {
                            search_input_raw: final(app).search_input_raw,
                            input_mode: InputMode::Normal,
                            ..*old(app)
                        })
                        &&& *final(gate) == (KeyGate { exit_enabled: true, ..*old(gate) })
                        &&& r is Continue
                    },
                    _ => *final(app) == *old(app) && *final(gate) == *old(gate) && r is Continue,
                },
            },
        },
{
    match ev {
        Event::Updating => {
            app.status = Status::Updating;
            Action::Continue
        }
        Event::Updated => {
            app.status = Status::Idle;
            Action::Reload
        }
        Event::Input(k) => {
            match app.input_mode {
                InputMode::Normal => {
                    if gate.should_exit(&k) {
                        return Action::Quit;
                    }
                    match k {
                        Key::Char(c) => {
                            if c == 'j' {
                                match app.scroll_items_down() {
                                    Some(w) => Action::StoreRead(w),
                                    None => Action::Continue,
                                }
                            } else if c == 'k' {
                                match app.scroll_items_up() {
                                    Some(w) => Action::StoreRead(w),
                                    None => Action::Continue,
                                }
                            } else if c == 'r' {
                                match app.mark_selected_read() {
                                    Some(w) => Action::StoreRead(w),
                                    None => Action::Continue,
                                }
                            } else if c == 'u' {
                                match app.mark_selected_unread() {
                                    Some(w) => Action::StoreRead(w),
                                    None => Action::Continue,
                                }
                            } else if c == 'o' {
                                match app.open_selected() {
                                    Some(u) => Action::OpenUrl(u),
                                    None => Action::Continue,
                                }
                            } else if c == 'J' {
                                app.scroll_reader_down();
                                Action::Continue
                            } else if c == 'K' {
                                app.scroll_reader_up();
                                Action::Continue
                            } else if c == 'n' {
                                app.jump_to_next_result();
                                Action::Continue
                            } else if c == 'N' {
                                app.jump_to_prev_result();
                                Action::Continue
                            } else if c == 'f' {
                                app.toggle_focus_reader();
                                Action::Continue
                            } else if c == '/' {
                                app.start_search();
                                gate.disable_exit_key();
                                Action::Continue
                            } else if c == ' ' {
                                app.toggle_selected_mark();
                                Action::Continue
                            } else {
                                Action::Continue
                            }
                        }
                        Key::Ctrl(c) => {
                            if c == 'd' {
                                match app.page_items_down() {
                                    Some(w) => Action::StoreRead(w),
                                    None => Action::Continue,
                                }
                            } else if c == 'u' {
                                match app.page_items_up() {
                                    Some(w) => Action::StoreRead(w),
                                    None => Action::Continue,
                                }
                            } else {
                                Action::Continue
                            }
                        }
                        Key::Esc => {
                            app.clear_marked();
                            Action::Continue
                        }
                        _ => Action::Continue,
                    }
                }
                InputMode::Search => {
                    match k {
                        Key::Char(c) => {
                            if c == '\n' {
                                app.submit_search();
                                gate.enable_exit_key();
                                Action::Continue
                            } else {
                                app.push_search_char(c);
                                Action::Continue
                            }
                        }
                        Key::Backspace => {
                            app.pop_search_char();
                            Action::Continue
                        }
                        Key::Esc => {
                            app.end_search();
                            gate.enable_exit_key();
                            Action::Continue
                        }
                        _ => Action::Continue,
                    }
                }
            }
        }
    }
}

} // verus!
