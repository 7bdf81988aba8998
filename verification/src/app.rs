use vstd::prelude::*;
use crate::item::{FlagWrite, Item};
use crate::order::{sort_items_desc, sorted_desc};
use crate::search::{
    compile_query, lemma_first_above_at, lemma_last_below_at, next_target, pattern_ok,
    prev_target, search_titles, strictly_ascending, title_matches, Query,
};
use crate::tracker::Tracker;

verus! {

/// Which meaning key events currently have: commands, or literal search
/// text.
#[derive(Clone, Copy, Debug, PartialEq, Eq, Structural)]
pub enum InputMode {
    Normal,
    Search,
}

/// Which stored items a reload brings into the session.
#[derive(Debug)]
pub enum Filter {
    All,
    Channel(String),
}

/// Whether a background sync is currently running.
#[derive(Clone, Copy, Debug, PartialEq, Eq, Structural)]
pub enum Status {
    Idle,
    Updating,
}

/// How many rows a page jump moves the selection.
pub const PAGE_JUMP: usize = 5;

/// The session state machine: the single owner of the item list, the
/// selection, the marks and the search state.
///
/// The controller never touches storage or the browser itself: operations
/// that the original system wrote through to storage return the write to
/// perform ([`FlagWrite`]) or the URL to open, and the caller carries it
/// out.
pub struct App {
    pub focus_reader: bool,
    pub status: Status,
    pub input_mode: InputMode,

    pub filter: Filter,
    pub items: Vec<Item>,
    pub table: Tracker,

    /// Ephemeral, session-only marks: indices into `items`, each at most
    /// once, cleared on demand and invalidated by every reload.
    pub marked: Vec<usize>,

    pub search_results: Vec<usize>,
    pub search_input_raw: String,
    pub search_input: Option<Query>,
    pub search_query: Option<Query>,

    pub reader_scroll: u16,
}

/// `items` with the `read` flag of the entry at `i` replaced by `v`.
pub open spec fn set_read_at(items: Seq<Item>, i: int, v: bool) -> Seq<Item> {
    items.update(i, items[i].with_read(v))
}

/// How `mark_selected_read`/`mark_selected_unread` relate the item list
/// before and after: with a selection, exactly that item's flag becomes `v`
/// and the matching storage write is returned; without one, nothing
/// happens.
pub open spec fn mark_effect(
    pre: Seq<Item>,
    sel: Option<usize>,
    v: bool,
    post: Seq<Item>,
    w: Option<FlagWrite>,
) -> bool {
    match sel {
        Some(i) => post == set_read_at(pre, i as int, v) && w == Some(
            FlagWrite { index: i, read: v },
        ),
        None => post == pre && w is None,
    }
}

/// Setting the `read` flag is idempotent: setting it at `i` twice to the
/// same value leaves the item list exactly as one setting left it. (The
/// storage write is still handed out on every call: write-through happens
/// per call, not only on change.)
pub proof fn lemma_set_read_idempotent(items: Seq<Item>, i: int, v: bool)
    requires
        0 <= i < items.len(),
    ensures
        set_read_at(set_read_at(items, i, v), i, v) == set_read_at(items, i, v),
{
    assert(set_read_at(set_read_at(items, i, v), i, v) =~= set_read_at(items, i, v));
}

impl App {
    /// Session-state invariant: the tracker addresses exactly the current
    /// item list, search results are strictly ascending valid indices, and
    /// marks are distinct valid indices.
    pub open spec fn wf(self) -> bool {
        &&& self.table.wf()
        &&& self.table.rows == self.items@.len()
        &&& strictly_ascending(self.search_results@)
        &&& forall|a: int|
            0 <= a < self.search_results@.len() ==> self.search_results@[a] < self.items@.len()
        &&& forall|a: int| 0 <= a < self.marked@.len() ==> self.marked@[a] < self.items@.len()
        &&& forall|a: int, b: int|
            0 <= a < b < self.marked@.len() ==> self.marked@[a] != self.marked@[b]
    }

    /// A fresh session: no items, no selection, no search, normal mode.
    pub fn new() -> (a: App)
        ensures
            a.wf(),
            a.items@.len() == 0,
            a.table.rows == 0,
            a.table.selected is None,
            !a.focus_reader,
            a.status is Idle,
            a.input_mode is Normal,
            a.filter is All,
            a.marked@.len() == 0,
            a.search_results@.len() == 0,
            a.search_input_raw@.len() == 0,
            a.search_input is None,
            a.search_query is None,
            a.reader_scroll == 0,
    {
        App {
            focus_reader: false,
            status: Status::Idle,
            input_mode: InputMode::Normal,
            filter: Filter::All,
            items: Vec::new(),
            table: Tracker::new(),
            marked: Vec::new(),
            search_results: Vec::new(),
            search_input_raw: String::new(),
            search_input: None,
            search_query: None,
            reader_scroll: 0,
        }
    }

    /// Replace the whole item list with a fresh load.
    ///
    /// The caller queries storage according to the active filter and hands
    /// the flattened result in; the controller sorts it newest first (a
    /// missing timestamp ranks as 0, the oldest), re-addresses the tracker,
    /// and drops every stale index-based reference: search results and
    /// marks are cleared, the selection is clamped or cleared.
    pub fn load_items(&mut self, fetched: Vec<Item>)
        requires
            old(self).wf(),
        ensures
            final(self).wf(),
            sorted_desc(final(self).items@),
            final(self).items@.to_multiset() == fetched@.to_multiset(),
            final(self).items@.len() == fetched@.len(),
            final(self).search_results@.len() == 0,
            final(self).marked@.len() == 0,
            final(self).table == old(self).table.spec_set_items(fetched@.len() as usize),
            *final(self) == (App {
                items: final(self).items,
                table: final(self).table,
                search_results: final(self).search_results,
                marked: final(self).marked,
                ..*old(self)
            }),
    {
        let mut list = fetched;
        sort_items_desc(&mut list);
        self.items = list;
        let n = self.items.len();
        self.table.set_items(n);
        self.search_results = Vec::new();
        self.marked = Vec::new();
        proof {
            vstd::seq_lib::to_multiset_len::<Item>(self.items@);
            vstd::seq_lib::to_multiset_len::<Item>(fetched@);
        }
    }

    /// Mark the selected item read, in memory, and return the storage
    /// write to mirror it; no-op without a selection. The write is handed
    /// out on every call, read or not.
    pub fn mark_selected_read(&mut self) -> (w: Option<FlagWrite>)
        requires
            old(self).wf(),
        ensures
            final(self).wf(),
            mark_effect(old(self).items@, old(self).table.selected, true, final(self).items@, w),
            *final(self) == (App { items: final(self).items, ..*old(self) }),
    {
        match self.table.selected() {
            Some(i) => {
                let it = &mut self.items[i];
                it.read = true;
                Some(FlagWrite { index: i, read: true })
            }
            None => None,
        }
    }

    /// Mark the selected item unread, in memory, and return the storage
    /// write to mirror it; no-op without a selection.
    pub fn mark_selected_unread(&mut self) -> (w: Option<FlagWrite>)
        requires
            old(self).wf(),
        ensures
            final(self).wf(),
            mark_effect(old(self).items@, old(self).table.selected, false, final(self).items@, w),
            *final(self) == (App { items: final(self).items, ..*old(self) }),
    {
        match self.table.selected() {
            Some(i) => {
                let it = &mut self.items[i];
                it.read = false;
                Some(FlagWrite { index: i, read: false })
            }
            None => None,
        }
    }

    /// Compile `query` as a case-insensitive pattern. The text is used
    /// verbatim as a pattern expression — metacharacters keep their
    /// meaning — and `None` reports, rather than hides, a malformed one.
    pub fn build_query(&self, query: &String) -> (r: Option<Query>)
        ensures
            r is Some <==> pattern_ok(query@),
            r matches Some(q) ==> q@ == query@,
    {
        compile_query(query.as_str())
    }

    /// Recompute the committed match positions of `query` over the current
    /// items: exactly the indices whose title matches, ascending; items
    /// without a title never match.
    pub fn execute_search(&mut self, query: &Query)
        requires
            old(self).wf(),
        ensures
            final(self).wf(),
            strictly_ascending(final(self).search_results@),
            forall|j: int|
                0 <= j < old(self).items@.len()
                    ==> (final(self).search_results@.contains(j as usize) <==> title_matches(
                    query@,
                    old(self).items@[j],
                )),
            *final(self) == (App { search_results: final(self).search_results, ..*old(self) }),
    {
        self.search_results = search_titles(query, &self.items);
    }

    /// Enter search mode. A previously committed query and its results are
    /// kept, so the old highlight stays until a new query is committed.
    pub fn start_search(&mut self)
        requires
            old(self).wf(),
        ensures
            final(self).wf(),
            *final(self) == (App { input_mode: InputMode::Search, ..*old(self) }),
    {
        self.input_mode = InputMode::Search;
    }

    /// Leave search mode, clearing only the raw input text.
    pub fn end_search(&mut self)
        requires
            old(self).wf(),
        ensures
            final(self).wf(),
            final(self).search_input_raw@.len() == 0,
            *final(self) == (App {
                search_input_raw: final(self).search_input_raw,
                input_mode: InputMode::Normal,
                ..*old(self)
            }),
    {
        self.search_input_raw = String::new();
        self.input_mode = InputMode::Normal;
    }

    /// Append one typed character to the raw search text and recompile the
    /// live preview pattern; a malformed pattern leaves the preview empty
    /// instead of failing.
    pub fn push_search_char(&mut self, c: char)
        requires
            old(self).wf(),
        ensures
            final(self).wf(),
            final(self).search_input_raw@ == old(self).search_input_raw@.push(c),
            (final(self).search_input is Some <==> pattern_ok(final(self).search_input_raw@)),
            final(self).search_input matches Some(q) ==> q@ == final(self).search_input_raw@,
            *final(self) == (App {
                search_input_raw: final(self).search_input_raw,
                search_input: final(self).search_input,
                ..*old(self)
            }),
    {
        push_char(&mut self.search_input_raw, c);
        self.search_input = compile_query(self.search_input_raw.as_str());
    }

    /// Remove the last character of the raw search text (no-op on empty
    /// text) and recompile the live preview pattern.
    pub fn pop_search_char(&mut self)
        requires
            old(self).wf(),
        ensures
            final(self).wf(),
            old(self).search_input_raw@.len() == 0 ==> final(self).search_input_raw@ == old(self).search_input_raw@,
            old(self).search_input_raw@.len() > 0 ==> final(self).search_input_raw@ == old(self).search_input_raw@.drop_last(),
            (final(self).search_input is Some <==> pattern_ok(final(self).search_input_raw@)),
            final(self).search_input matches Some(q) ==> q@ == final(self).search_input_raw@,
            *final(self) == (App {
                search_input_raw: final(self).search_input_raw,
                search_input: final(self).search_input,
                ..*old(self)
            }),
    {
        let _ = pop_char(&mut self.search_input_raw);
        self.search_input = compile_query(self.search_input_raw.as_str());
    }

    /// Commit the raw search text: compile it, recompute the match
    /// positions, remember it as the committed query, and leave search
    /// mode. A malformed pattern commits nothing — the previous query and
    /// its results stay — but search mode still ends.
    pub fn submit_search(&mut self)
        requires
            old(self).wf(),
        ensures
            final(self).wf(),
            final(self).input_mode is Normal,
            final(self).search_input_raw@.len() == 0,
            pattern_ok(old(self).search_input_raw@) ==> {
                &&& final(self).search_query matches Some(q) && q@ == old(self).search_input_raw@
                &&& strictly_ascending(final(self).search_results@)
                &&& forall|j: int|
                    0 <= j < old(self).items@.len() ==> (final(self).search_results@.contains(j as usize) <==> title_matches(
                        old(self).search_input_raw@,
                        old(self).items@[j],
                    ))
            },
            !pattern_ok(old(self).search_input_raw@) ==> {
                &&& final(self).search_query == old(self).search_query
                &&& final(self).search_results@ == old(self).search_results@
            },
            *final(self) == (App {
                search_query: final(self).search_query,
                search_results: final(self).search_results,
                search_input_raw: final(self).search_input_raw,
                input_mode: InputMode::Normal,
                ..*old(self)
            }),
    {
        let compiled = compile_query(self.search_input_raw.as_str());
        match compiled {
            Some(q) => {
                self.execute_search(&q);
                self.search_query = Some(q);
            }
            None => {}
        }
        self.end_search();
    }

    /// Move the selection one row up, mark the newly selected item read,
    /// and rewind the detail pane.
    pub fn scroll_items_up(&mut self) -> (w: Option<FlagWrite>)
        requires
            old(self).wf(),
        ensures
            final(self).wf(),
            final(self).table == old(self).table.spec_previous(),
            mark_effect(old(self).items@, final(self).table.selected, true, final(self).items@, w),
            final(self).reader_scroll == 0,
            *final(self) == (App {
                items: final(self).items,
                table: final(self).table,
                reader_scroll: final(self).reader_scroll,
                ..*old(self)
            }),
    {
        self.table.previous();
        let w = self.mark_selected_read();
        self.reset_reader_scroll();
        w
    }

    /// Move the selection one row down, mark the newly selected item read,
    /// and rewind the detail pane.
    pub fn scroll_items_down(&mut self) -> (w: Option<FlagWrite>)
        requires
            old(self).wf(),
        ensures
            final(self).wf(),
            final(self).table == old(self).table.spec_next(),
            mark_effect(old(self).items@, final(self).table.selected, true, final(self).items@, w),
            final(self).reader_scroll == 0,
            *final(self) == (App {
                items: final(self).items,
                table: final(self).table,
                reader_scroll: final(self).reader_scroll,
                ..*old(self)
            }),
    {
        self.table.next();
        let w = self.mark_selected_read();
        self.reset_reader_scroll();
        w
    }

    /// Move the selection one page up (clamped at the first row), mark the
    /// newly selected item read, and rewind the detail pane.
    pub fn page_items_up(&mut self) -> (w: Option<FlagWrite>)
        requires
            old(self).wf(),
        ensures
            final(self).wf(),
            final(self).table == old(self).table.spec_jump_backward(PAGE_JUMP),
            mark_effect(old(self).items@, final(self).table.selected, true, final(self).items@, w),
            final(self).reader_scroll == 0,
            *final(self) == (App {
                items: final(self).items,
                table: final(self).table,
                reader_scroll: final(self).reader_scroll,
                ..*old(self)
            }),
    {
        self.table.jump_backward(PAGE_JUMP);
        let w = self.mark_selected_read();
        self.reset_reader_scroll();
        w
    }

    /// Move the selection one page down (clamped at the last row), mark the
    /// newly selected item read, and rewind the detail pane.
    pub fn page_items_down(&mut self) -> (w: Option<FlagWrite>)
        requires
            old(self).wf(),
        ensures
            final(self).wf(),
            final(self).table == old(self).table.spec_jump_forward(PAGE_JUMP),
            mark_effect(old(self).items@, final(self).table.selected, true, final(self).items@, w),
            final(self).reader_scroll == 0,
            *final(self) == (App {
                items: final(self).items,
                table: final(self).table,
                reader_scroll: final(self).reader_scroll,
                ..*old(self)
            }),
    {
        self.table.jump_forward(PAGE_JUMP);
        let w = self.mark_selected_read();
        self.reset_reader_scroll();
        w
    }

    /// Rewind the detail pane to its top.
    pub fn reset_reader_scroll(&mut self)
        requires
            old(self).wf(),
        ensures
            final(self).wf(),
            *final(self) == (App { reader_scroll: 0u16, ..*old(self) }),
    {
        self.reader_scroll = 0;
    }

    /// Scroll the detail pane one line back, stopping at the top.
    pub fn scroll_reader_up(&mut self)
        requires
            old(self).wf(),
        ensures
            final(self).wf(),
            final(self).reader_scroll == if old(self).reader_scroll > 0 {
                (old(self).reader_scroll - 1) as u16
            } else {
                0u16
            },
            *final(self) == (App { reader_scroll: final(self).reader_scroll, ..*old(self) }),
    {
        if self.reader_scroll > 0 {
            self.reader_scroll = self.reader_scroll - 1;
        }
    }

    /// Scroll the detail pane one line forward, saturating at the largest
    /// offset the counter can hold.
    pub fn scroll_reader_down(&mut self)
        requires
            old(self).wf(),
        ensures
            final(self).wf(),
            final(self).reader_scroll == if old(self).reader_scroll < u16::MAX {
                (old(self).reader_scroll + 1) as u16
            } else {
                u16::MAX
            },
            *final(self) == (App { reader_scroll: final(self).reader_scroll, ..*old(self) }),
    {
        if self.reader_scroll < u16::MAX {
            self.reader_scroll = self.reader_scroll + 1;
        }
    }

    /// Flip between the split list/detail layout and the full-screen
    /// detail pane. Pure state toggle.
    pub fn toggle_focus_reader(&mut self)
        requires
            old(self).wf(),
        ensures
            final(self).wf(),
            final(self).focus_reader == !old(self).focus_reader,
            *final(self) == (App { focus_reader: !old(self).focus_reader, ..*old(self) }),
    {
        self.focus_reader = !self.focus_reader;
    }

    /// The URL to open for the selected item: its `url` if an item is
    /// selected and has one, `None` otherwise. Launching is the caller's
    /// business and best-effort.
    pub fn open_selected(&self) -> (u: Option<String>)
        requires
            self.wf(),
        ensures
            match self.table.selected {
                Some(i) => u == self.items@[i as int].url,
                None => u is None,
            },
    {
        match self.table.selected() {
            Some(i) => match &self.items[i].url {
                Some(url) => Some(url.clone()),
                None => None,
            },
            None => None,
        }
    }

    /// Jump the selection to the next committed match: the first match
    /// after the current selection, wrapping to the first match from the
    /// last one or from no selection. No-op while there are no matches.
    pub fn jump_to_next_result(&mut self)
        requires
            old(self).wf(),
        ensures
            final(self).wf(),
            old(self).search_results@.len() == 0 ==> *final(self) == *old(self),
            old(self).search_results@.len() > 0 ==> {
                &&& final(self).table.rows == old(self).table.rows
                &&& final(self).table.selected == Some(
                    next_target(old(self).search_results@, old(self).table.selected),
                )
                &&& final(self).reader_scroll == 0
                &&& *final(self) == (App {
                    table: final(self).table,
                    reader_scroll: final(self).reader_scroll,
                    ..*old(self)
                })
            },
    {
        let n = self.search_results.len();
        if n == 0 {
            return ;
        }
        let target: usize = match self.table.selected() {
            Some(i) => {
                let last = self.search_results[n - 1];
                if i >= last {
                    self.search_results[0]
                } else {
                    let mut k: usize = 0;
                    while self.search_results[k] <= i
                        invariant
                            self.wf(),
                            n == self.search_results@.len(),
                            0 < n,
                            k < n,
                            i < self.search_results@[n - 1],
                            forall|m: int| 0 <= m < k ==> self.search_results@[m] <= i,
                        decreases n - k,
                    {
                        k = k + 1;
                        proof {
                            if k == n {
                                assert(self.search_results@[n - 1] <= i);
                            }
                        }
                    }
                    proof {
                        lemma_first_above_at(self.search_results@, i, k as int);
                    }
                    self.search_results[k]
                }
            }
            None => self.search_results[0],
        };
        self.table.select(Some(target));
        self.reset_reader_scroll();
    }

    /// Jump the selection to the previous committed match: the last match
    /// before the current selection, wrapping to the last match from the
    /// first one; with no selection it lands on the first match. No-op
    /// while there are no matches.
    pub fn jump_to_prev_result(&mut self)
        requires
            old(self).wf(),
        ensures
            final(self).wf(),
            old(self).search_results@.len() == 0 ==> *final(self) == *old(self),
            old(self).search_results@.len() > 0 ==> {
                &&& final(self).table.rows == old(self).table.rows
                &&& final(self).table.selected == Some(
                    prev_target(old(self).search_results@, old(self).table.selected),
                )
                &&& final(self).reader_scroll == 0
                &&& *final(self) == (App {
                    table: final(self).table,
                    reader_scroll: final(self).reader_scroll,
                    ..*old(self)
                })
            },
    {
        let n = self.search_results.len();
        if n == 0 {
            return ;
        }
        let target: usize = match self.table.selected() {
            Some(i) => {
                let first = self.search_results[0];
                if i <= first {
                    self.search_results[n - 1]
                } else {
                    let mut k: usize = n - 1;
                    while self.search_results[k] >= i
                        invariant
                            self.wf(),
                            n == self.search_results@.len(),
                            0 < n,
                            k < n,
                            self.search_results@[0] < i,
                            forall|m: int| k < m < n ==> self.search_results@[m] >= i,
                        decreases k,
                    {
                        proof {
                            if k == 0 {
                                assert(self.search_results@[0] >= i);
                            }
                        }
                        k = k - 1;
                    }
                    proof {
                        lemma_last_below_at(self.search_results@, i, k as int);
                    }
                    self.search_results[k]
                }
            }
            None => self.search_results[0],
        };
        self.table.select(Some(target));
        self.reset_reader_scroll();
    }

    /// Toggle the ephemeral mark on the selected item: marked becomes
    /// unmarked and the other way round; no-op without a selection.
    pub fn toggle_selected_mark(&mut self)
        requires
            old(self).wf(),
        ensures
            final(self).wf(),
            match old(self).table.selected {
                Some(i) => {
                    &&& (final(self).marked@.contains(i) <==> !old(self).marked@.contains(i))
                    &&& forall|x: usize|
                        x != i ==> (final(self).marked@.contains(x) <==> old(self).marked@.contains(x))
                    &&& *final(self) == (App { marked: final(self).marked, ..*old(self) })
                },
                None => *final(self) == *old(self),
            },
    {
        let sel = self.table.selected();
        match sel {
            Some(i) => {
                let mut k: usize = 0;
                let mut pos: Option<usize> = None;
                while k < self.marked.len()
                    invariant
                        self.wf(),
                        k <= self.marked@.len(),
                        match pos {
                            Some(p) => p < k && self.marked@[p as int] == i,
                            None => forall|m: int| 0 <= m < k ==> self.marked@[m] != i,
                        },
                    decreases self.marked@.len() - k,
                {
                    if pos.is_none() && self.marked[k] == i {
                        pos = Some(k);
                    }
                    k = k + 1;
                }
                let ghost pre = self.marked@;
                match pos {
                    Some(p) => {
                        self.marked.remove(p);
                        proof {
                            assert(pre.contains(i));
                            let s = self.marked@;
                            assert forall|x: usize| s.contains(x) implies x != i && pre.contains(
                                x,
                            ) by {
                                let q = choose|q: int| 0 <= q < s.len() && s[q] == x;
                                if q < p {
                                    assert(pre[q] == x);
                                } else {
                                    assert(pre[q + 1] == x);
                                }
                            }
                            assert forall|x: usize| x != i && pre.contains(x) implies s.contains(
                                x,
                            ) by {
                                let q = choose|q: int| 0 <= q < pre.len() && pre[q] == x;
                                if q < p {
                                    assert(s[q] == x);
                                } else {
                                    assert(q != p);
                                    assert(s[q - 1] == x);
                                }
                            }
                            assert forall|a: int, b: int| 0 <= a < b < s.len() implies s[a] != s[b]
                            by {
                                if b < p {
                                } else if a < p {
                                    assert(s[b] == pre[b + 1]);
                                } else {
                                    assert(s[a] == pre[a + 1]);
                                    assert(s[b] == pre[b + 1]);
                                }
                            }
                            assert(forall|a: int|
                                0 <= a < s.len() ==> s[a] < final(self).items@.len());
                        }
                    }
                    None => {
                        self.marked.push(i);
                        proof {
                            let s = self.marked@;
                            assert(s[s.len() - 1] == i);
                            assert(s.contains(i));
                            assert(!pre.contains(i)) by {
                                if pre.contains(i) {
                                    let q = choose|q: int| 0 <= q < pre.len() && pre[q] == i;
                                    assert(pre[q] != i);
                                }
                            }
                            assert forall|x: usize| x != i implies (s.contains(x) <==> pre.contains(
                                x,
                            )) by {
                                if s.contains(x) {
                                    let q = choose|q: int| 0 <= q < s.len() && s[q] == x;
                                    assert(q < pre.len());
                                    assert(pre[q] == x);
                                }
                                if pre.contains(x) {
                                    let q = choose|q: int| 0 <= q < pre.len() && pre[q] == x;
                                    assert(s[q] == x);
                                }
                            }
                            assert forall|a: int, b: int| 0 <= a < b < s.len() implies s[a] != s[b]
                            by {
                                if b == s.len() - 1 {
                                    assert(pre.contains(pre[a]));
                                }
                            }
                        }
                    }
                }
            }
            None => {}
        }
    }

    /// Drop every ephemeral mark.
    pub fn clear_marked(&mut self)
        requires
            old(self).wf(),
        ensures
            final(self).wf(),
            final(self).marked@.len() == 0,
            *final(self) == (App { marked: final(self).marked, ..*old(self) }),
    {
        self.marked = Vec::new();
    }
}

/// Relies on `String::push`: appends exactly one character at the end.
#[verifier::external_body]
fn push_char(s: &mut String, c: char)
    ensures
        final(s)@ == old(s)@.push(c),
{
    s.push(c);
}

/// Relies on `String::pop`: removes and returns the last character, or
/// returns `None` and changes nothing on an empty string.
#[verifier::external_body]
fn pop_char(s: &mut String) -> (r: Option<char>)
    ensures
        old(s)@.len() == 0 ==> final(s)@ == old(s)@ && r is None,
        old(s)@.len() > 0 ==> final(s)@ == old(s)@.drop_last() && r == Some(old(s)@.last()),
{
    s.pop()
}

} // verus!
