//! The navigation state machine: one session's tab, selections and
//! window offsets, and how each command moves them.
//!
//! Every transition is given by the pure function [`step`]; the
//! executable [`State::run_command`] is proved to compute exactly that
//! function. The follow invariant — the selection always lies inside
//! the visible window, on both axes — is part of [`State::wf`] and is
//! preserved by every command.
//!
//! The two axes are deliberately asymmetric: column navigation wraps at
//! both ends, row navigation clamps at the start and pages forward at
//! the end.

use vstd::prelude::*;

use crate::command::{Command, ScrollType};
use crate::page::{PageFetch, RowPage};
use crate::ui::{tab_index, tab_of_index, Tab, TAB_COUNT};
use crate::viewer::Viewer;

verus! {

/// The next position on a cyclic axis of `n` positions.
pub open spec fn wrap_inc(i: nat, n: nat) -> nat {
    if i + 1 < n {
        (i + 1) as nat
    } else {
        0
    }
}

/// The previous position on a cyclic axis of `n` positions.
pub open spec fn wrap_dec(i: nat, n: nat) -> nat {
    if i == 0 {
        (n - 1) as nat
    } else {
        (i - 1) as nat
    }
}

/// The branch form of the cyclic steps equals the modular form: from a
/// valid position, one step forward is addition of one modulo the axis
/// length, and one step backward is addition of the length less one.
pub proof fn lemma_wrap_is_mod(i: nat, n: nat)
    requires
        n >= 1,
        i < n,
    ensures
        wrap_inc(i, n) as int == ((i + 1) as int) % (n as int),
        wrap_dec(i, n) as int == (i + n - 1) % (n as int),
{
    if i + 1 < n {
        vstd::arithmetic::div_mod::lemma_small_mod((i + 1) as nat, n);
    } else {
        vstd::arithmetic::div_mod::lemma_mod_self_0(n as int);
    }
    if i == 0 {
        vstd::arithmetic::div_mod::lemma_small_mod((n - 1) as nat, n);
    } else {
        vstd::arithmetic::div_mod::lemma_mod_add_multiples_vanish(i - 1, n as int);
        vstd::arithmetic::div_mod::lemma_small_mod((i - 1) as nat, n);
    }
}

/// The tab after a given tab, cyclically.
pub open spec fn next_tab(t: Tab) -> Tab {
    tab_of_index(wrap_inc(tab_index(t), TAB_COUNT as nat))
}

/// The tab before a given tab, cyclically.
pub open spec fn prev_tab(t: Tab) -> Tab {
    tab_of_index(wrap_dec(tab_index(t), TAB_COUNT as nat))
}

/// One interactive session: whether it still runs, the catalog and
/// buffered page it was opened on, the current tab, and the metadata
/// tab's selections.
pub struct State {
    /// Whether the session keeps running; `Exit` clears it.
    pub running: bool,
    /// The catalog, the buffered page, and the data tab's cursor and
    /// window fields.
    pub viewer: Viewer,
    /// The tab currently shown.
    pub tab: Tab,
    /// The column selected on the metadata tab's schema table.
    pub selected_column: usize,
    /// The row group selected on the metadata tab's chunk panel.
    pub chunk_ind: usize,
}

impl State {
    /// Well-formedness of a session: the catalog invariants hold and
    /// both metadata selections are in range.
    pub open spec fn wf(&self) -> bool {
        &&& self.viewer.wf()
        &&& self.selected_column < self.viewer.num_cols
        &&& self.chunk_ind < self.viewer.num_row_groups
    }

    /// Opens a session on a catalog: running, on the data tab, with
    /// both metadata selections at the start.
    pub fn new(viewer: Viewer) -> (r: State)
        requires
            viewer.wf(),
        ensures
            r.wf(),
            r.running,
            r.tab == Tab::Data,
            r.selected_column == 0,
            r.chunk_ind == 0,
            r.viewer == viewer,
    {
        State { running: true, viewer, tab: Tab::Data, selected_column: 0, chunk_ind: 0 }
    }
}

/// Whether a command runs into the end of the buffered page: moving
/// down on the data tab while the selection sits on the page's last
/// row. The move is deferred until a replacement page is fetched.
pub open spec fn page_fetch_needed(pre: State, command: Command) -> bool {
    &&& command == Command::Next(ScrollType::Vertical)
    &&& pre.tab == Tab::Data
    &&& pre.viewer.selected_row + 1 >= pre.viewer.batch.num_rows
}

/// Moving down one row on the data tab, away from the page boundary:
/// the selection advances, and the window follows when the selection
/// would leave its lower edge.
pub open spec fn data_row_next(pre: State) -> State {
    let v = pre.viewer;
    if v.selected_row + 1 >= v.batch.num_rows {
        pre
    } else {
        let sr = (v.selected_row + 1) as usize;
        let ro = if sr > v.row_offset + v.visible_rows - 1 {
            (v.row_offset + 1) as usize
        } else {
            v.row_offset
        };
        State { viewer: Viewer { selected_row: sr, row_offset: ro, ..v }, ..pre }
    }
}

/// Moving up one row on the data tab: the selection retreats and the
/// window follows; at the first row the move is a no-op (rows clamp at
/// the start, they do not wrap).
pub open spec fn data_row_prev(pre: State) -> State {
    let v = pre.viewer;
    if v.selected_row == 0 {
        pre
    } else {
        let sr = (v.selected_row - 1) as usize;
        let ro = if sr < v.row_offset {
            (v.row_offset - 1) as usize
        } else {
            v.row_offset
        };
        State { viewer: Viewer { selected_row: sr, row_offset: ro, ..v }, ..pre }
    }
}

/// Moving right one column on the data tab: past the last column both
/// the selection and the window wrap to the start; otherwise the
/// selection advances and the window follows.
pub open spec fn data_col_next(pre: State) -> State {
    let v = pre.viewer;
    if v.selected_col + 1 >= v.num_cols {
        State { viewer: Viewer { selected_col: 0, col_offset: 0, ..v }, ..pre }
    } else {
        let sc = (v.selected_col + 1) as usize;
        let co = if sc > v.col_offset + v.visible_cols - 1 {
            (v.col_offset + 1) as usize
        } else {
            v.col_offset
        };
        State { viewer: Viewer { selected_col: sc, col_offset: co, ..v }, ..pre }
    }
}

/// Moving left one column on the data tab: before the first column the
/// selection wraps to the last column with the window pushed to the
/// end; otherwise the selection retreats and the window follows.
pub open spec fn data_col_prev(pre: State) -> State {
    let v = pre.viewer;
    if v.selected_col == 0 {
        State {
            viewer: Viewer {
                selected_col: (v.num_cols - 1) as usize,
                col_offset: (v.num_cols - v.visible_cols) as usize,
                ..v
            },
            ..pre
        }
    } else {
        let sc = (v.selected_col - 1) as usize;
        let co = if sc < v.col_offset {
            (v.col_offset - 1) as usize
        } else {
            v.col_offset
        };
        State { viewer: Viewer { selected_col: sc, col_offset: co, ..v }, ..pre }
    }
}

/// What one command does to a session. Pure and total; a move that
/// runs into the page boundary leaves the state unchanged until a
/// replacement page is applied.
pub open spec fn step(pre: State, command: Command) -> State {
    match command {
        Command::Exit => State { running: false, ..pre },
        Command::Nothing => pre,
        Command::Next(axis) => match axis {
            ScrollType::Tab => State { tab: next_tab(pre.tab), ..pre },
            ScrollType::Vertical => match pre.tab {
                Tab::Metadata => State {
                    selected_column: wrap_inc(
                        pre.selected_column as nat,
                        pre.viewer.num_cols as nat,
                    ) as usize,
                    ..pre
                },
                Tab::Data => data_row_next(pre),
            },
            ScrollType::Horizontal => match pre.tab {
                Tab::Metadata => State {
                    chunk_ind: wrap_inc(
                        pre.chunk_ind as nat,
                        pre.viewer.num_row_groups as nat,
                    ) as usize,
                    ..pre
                },
                Tab::Data => data_col_next(pre),
            },
        },
        Command::Previous(axis) => match axis {
            ScrollType::Tab => State { tab: prev_tab(pre.tab), ..pre },
            ScrollType::Vertical => match pre.tab {
                Tab::Metadata => State {
                    selected_column: wrap_dec(
                        pre.selected_column as nat,
                        pre.viewer.num_cols as nat,
                    ) as usize,
                    ..pre
                },
                Tab::Data => data_row_prev(pre),
            },
            ScrollType::Horizontal => match pre.tab {
                Tab::Metadata => State {
                    chunk_ind: wrap_dec(
                        pre.chunk_ind as nat,
                        pre.viewer.num_row_groups as nat,
                    ) as usize,
                    ..pre
                },
                Tab::Data => data_col_prev(pre),
            },
        },
    }
}

fn wrap_inc_usize(i: usize, n: usize) -> (r: usize)
    requires
        i < n,
    ensures
        r == wrap_inc(i as nat, n as nat),
        r < n,
{
    if i + 1 < n {
        i + 1
    } else {
        0
    }
}

fn wrap_dec_usize(i: usize, n: usize) -> (r: usize)
    requires
        n >= 1,
        i < n,
    ensures
        r == wrap_dec(i as nat, n as nat),
        r < n,
{
    if i == 0 {
        n - 1
    } else {
        i - 1
    }
}

/// Whether a replacement page fits the session it is applied to: it
/// matches the schema, holds at least one row, and fits the page
/// capacity.
pub open spec fn page_ok(p: RowPage, v: Viewer) -> bool {
    &&& p.wf()
    &&& p.columns@.len() == v.num_cols
    &&& 1 <= p.num_rows <= v.batch_size
}

/// A session with its buffered page replaced: the new page's index
/// space restarts at zero, and the row cursor and window restart with
/// it.
pub open spec fn page_applied(pre: State, p: RowPage) -> State {
    State { viewer: Viewer { batch: p, selected_row: 0, row_offset: 0, ..pre.viewer }, ..pre }
}

impl State {
    /// Applies one command to the session and says whether the command
    /// ran into the end of the buffered page, in which case the state
    /// is unchanged and the caller must fetch the next page and hand
    /// the outcome to [`State::apply_page`].
    pub fn run_command(&mut self, command: Command) -> (needs_page: bool)
        requires
            old(self).wf(),
        ensures
            final(self).wf(),
            needs_page == page_fetch_needed(*old(self), command),
            *final(self) == step(*old(self), command),
    {
        match command {
            Command::Exit => {
                self.running = false;
            },
            Command::Nothing => {},
            Command::Next(axis) => match axis {
                ScrollType::Tab => {
                    let i = self.tab.index();
                    self.tab = Tab::from(wrap_inc_usize(i, TAB_COUNT));
                },
                ScrollType::Vertical => match self.tab {
                    Tab::Metadata => {
                        self.selected_column = wrap_inc_usize(
                            self.selected_column,
                            self.viewer.num_cols,
                        );
                    },
                    Tab::Data => {
                        if self.viewer.selected_row == self.viewer.batch.num_rows - 1 {
                            return true;
                        }
                        self.viewer.selected_row = self.viewer.selected_row + 1;
                        if self.viewer.selected_row > self.viewer.row_offset
                            + self.viewer.visible_rows - 1 {
                            self.viewer.row_offset = self.viewer.row_offset + 1;
                        }
                    },
                },
                ScrollType::Horizontal => match self.tab {
                    Tab::Metadata => {
                        self.chunk_ind = wrap_inc_usize(self.chunk_ind, self.viewer.num_row_groups);
                    },
                    Tab::Data => {
                        if self.viewer.selected_col == self.viewer.num_cols - 1 {
                            self.viewer.selected_col = 0;
                            self.viewer.col_offset = 0;
                        } else {
                            self.viewer.selected_col = self.viewer.selected_col + 1;
                            if self.viewer.selected_col > self.viewer.col_offset
                                + self.viewer.visible_cols - 1 {
                                self.viewer.col_offset = self.viewer.col_offset + 1;
                            }
                        }
                    },
                },
            },
            Command::Previous(axis) => match axis {
                ScrollType::Tab => {
                    let i = self.tab.index();
                    self.tab = Tab::from(wrap_dec_usize(i, TAB_COUNT));
                },
                ScrollType::Vertical => match self.tab {
                    Tab::Metadata => {
                        self.selected_column = wrap_dec_usize(
                            self.selected_column,
                            self.viewer.num_cols,
                        );
                    },
                    Tab::Data => {
                        if self.viewer.selected_row != 0 {
                            self.viewer.selected_row = self.viewer.selected_row - 1;
                            if self.viewer.selected_row < self.viewer.row_offset {
                                self.viewer.row_offset = self.viewer.row_offset - 1;
                            }
                        }
                    },
                },
                ScrollType::Horizontal => match self.tab {
                    Tab::Metadata => {
                        self.chunk_ind = wrap_dec_usize(self.chunk_ind, self.viewer.num_row_groups);
                    },
                    Tab::Data => {
                        if self.viewer.selected_col != 0 {
                            self.viewer.selected_col = self.viewer.selected_col - 1;
                            if self.viewer.selected_col < self.viewer.col_offset {
                                self.viewer.col_offset = self.viewer.col_offset - 1;
                            }
                        } else {
                            self.viewer.selected_col = self.viewer.num_cols - 1;
                            self.viewer.col_offset = self.viewer.num_cols
                                - self.viewer.visible_cols;
                        }
                    },
                },
            },
        }
        false
    }

    /// Applies the outcome of a page fetch. A fitting page replaces
    /// the buffer wholesale — never appends — and the row cursor and
    /// window restart at the top of the new page, whose index space
    /// restarts at zero. An exhausted source, or a page that does not
    /// fit the session, leaves the state unchanged: the deferred
    /// forward move becomes a no-op.
    pub fn apply_page(&mut self, fetch: PageFetch)
        requires
            old(self).wf(),
        ensures
            final(self).wf(),
            match fetch {
                PageFetch::Page(p) => if page_ok(p, old(self).viewer) {
                    *final(self) == page_applied(*old(self), p)
                } else {
                    *final(self) == *old(self)
                },
                PageFetch::EndOfData => *final(self) == *old(self),
            },
    {
        match fetch {
            PageFetch::Page(p) => {
                if p.is_consistent() && p.columns.len() == self.viewer.num_cols && p.num_rows >= 1
                    && p.num_rows <= self.viewer.batch_size {
                    self.viewer.batch = p;
                    self.viewer.selected_row = 0;
                    self.viewer.row_offset = 0;
                }
            },
            PageFetch::EndOfData => {},
        }
    }
}


/// The session a sequence of commands leads to, applied in order.
pub open spec fn apply_cmds(s: State, cmds: Seq<Command>) -> State
    decreases cmds.len(),
{
    if cmds.len() == 0 {
        s
    } else {
        step(apply_cmds(s, cmds.drop_last()), cmds.last())
    }
}

/// `n` copies of one command.
pub open spec fn repeated(command: Command, n: nat) -> Seq<Command> {
    Seq::new(n, |i: int| command)
}

/// Every single command preserves well-formedness — and with it the
/// follow invariant — and never changes the shape of the catalog.
pub proof fn lemma_step_preserves_wf(s: State, command: Command)
    requires
        s.wf(),
    ensures
        step(s, command).wf(),
        step(s, command).viewer.num_cols == s.viewer.num_cols,
        step(s, command).viewer.num_row_groups == s.viewer.num_row_groups,
{
}

/// Follow invariant: after each move of any command sequence the
/// session is well-formed, so the selection lies inside the visible
/// window on both axes:
/// `row_offset <= selected_row <= row_offset + visible_rows - 1`, and
/// the analogous column inequality.
pub proof fn lemma_follow_invariant(s: State, cmds: Seq<Command>, k: int)
    requires
        s.wf(),
        0 <= k <= cmds.len(),
    ensures
        apply_cmds(s, cmds.take(k)).wf(),
        apply_cmds(s, cmds.take(k)).viewer.num_cols == s.viewer.num_cols,
        apply_cmds(s, cmds.take(k)).viewer.num_row_groups == s.viewer.num_row_groups,
    decreases k,
{
    if k == 0 {
        assert(cmds.take(0) =~= Seq::<Command>::empty());
    } else {
        lemma_follow_invariant(s, cmds, k - 1);
        assert(cmds.take(k).drop_last() =~= cmds.take(k - 1));
        lemma_step_preserves_wf(apply_cmds(s, cmds.take(k - 1)), cmds.take(k).last());
    }
}

/// Degenerate axis: in a file with a single column, any command
/// sequence leaves the metadata tab's column selection at zero.
pub proof fn lemma_degenerate_axis(s: State, cmds: Seq<Command>, k: int)
    requires
        s.wf(),
        s.viewer.num_cols == 1,
        0 <= k <= cmds.len(),
    ensures
        apply_cmds(s, cmds.take(k)).selected_column == 0,
{
    lemma_follow_invariant(s, cmds, k);
}

/// A well-formed session only asks the catalog for chunks that exist:
/// the metadata selections always index a valid (row group, column)
/// pair, so a not-found lookup cannot occur in normal operation — an
/// occurrence would be a consistency fault.
pub proof fn lemma_selection_indexes_catalog(s: State)
    requires
        s.wf(),
    ensures
        s.chunk_ind < s.viewer.row_groups@.len(),
        s.selected_column < s.viewer.row_groups@[s.chunk_ind as int].columns@.len(),
{
}

/// Where `k` forward steps land on a cyclic axis of `n` positions.
pub open spec fn iter_wrap_inc(i: nat, n: nat, k: nat) -> nat
    decreases k,
{
    if k == 0 {
        i
    } else {
        wrap_inc(iter_wrap_inc(i, n, (k - 1) as nat), n)
    }
}

/// Where `k` backward steps land on a cyclic axis of `n` positions.
pub open spec fn iter_wrap_dec(i: nat, n: nat, k: nat) -> nat
    decreases k,
{
    if k == 0 {
        i
    } else {
        wrap_dec(iter_wrap_dec(i, n, (k - 1) as nat), n)
    }
}

proof fn lemma_iter_wrap_inc(i: nat, n: nat, k: nat)
    requires
        i < n,
        k <= n,
    ensures
        iter_wrap_inc(i, n, k) as int == if i + k < n {
            (i + k) as int
        } else {
            i + k - n
        },
    decreases k,
{
    if k > 0 {
        lemma_iter_wrap_inc(i, n, (k - 1) as nat);
    }
}

proof fn lemma_iter_wrap_dec(i: nat, n: nat, k: nat)
    requires
        i < n,
        k <= n,
    ensures
        iter_wrap_dec(i, n, k) as int == if k <= i {
            i - k
        } else {
            i + n - k
        },
    decreases k,
{
    if k > 0 {
        lemma_iter_wrap_dec(i, n, (k - 1) as nat);
    }
}

proof fn lemma_iter_wrap_inc_in_range(i: nat, n: nat, k: nat)
    requires
        i < n,
    ensures
        iter_wrap_inc(i, n, k) < n,
    decreases k,
{
    if k > 0 {
        lemma_iter_wrap_inc_in_range(i, n, (k - 1) as nat);
    }
}

proof fn lemma_iter_wrap_dec_in_range(i: nat, n: nat, k: nat)
    requires
        i < n,
    ensures
        iter_wrap_dec(i, n, k) < n,
    decreases k,
{
    if k > 0 {
        lemma_iter_wrap_dec_in_range(i, n, (k - 1) as nat);
    }
}

proof fn lemma_metadata_vertical_next_iter(s: State, k: nat)
    requires
        s.wf(),
        s.tab == Tab::Metadata,
    ensures
        apply_cmds(s, repeated(Command::Next(ScrollType::Vertical), k)) == (State {
            selected_column: iter_wrap_inc(
                s.selected_column as nat,
                s.viewer.num_cols as nat,
                k,
            ) as usize,
            ..s
        }),
    decreases k,
{
    let cmd = Command::Next(ScrollType::Vertical);
    if k == 0 {
        assert(repeated(cmd, 0) =~= Seq::<Command>::empty());
        assert(State { selected_column: s.selected_column, ..s } == s);
    } else {
        lemma_metadata_vertical_next_iter(s, (k - 1) as nat);
        assert(repeated(cmd, k).drop_last() =~= repeated(cmd, (k - 1) as nat));
        lemma_iter_wrap_inc_in_range(
            s.selected_column as nat,
            s.viewer.num_cols as nat,
            (k - 1) as nat,
        );
    }
}

proof fn lemma_metadata_vertical_prev_iter(s: State, k: nat)
    requires
        s.wf(),
        s.tab == Tab::Metadata,
    ensures
        apply_cmds(s, repeated(Command::Previous(ScrollType::Vertical), k)) == (State {
            selected_column: iter_wrap_dec(
                s.selected_column as nat,
                s.viewer.num_cols as nat,
                k,
            ) as usize,
            ..s
        }),
    decreases k,
{
    let cmd = Command::Previous(ScrollType::Vertical);
    if k == 0 {
        assert(repeated(cmd, 0) =~= Seq::<Command>::empty());
        assert(State { selected_column: s.selected_column, ..s } == s);
    } else {
        lemma_metadata_vertical_prev_iter(s, (k - 1) as nat);
        assert(repeated(cmd, k).drop_last() =~= repeated(cmd, (k - 1) as nat));
        lemma_iter_wrap_dec_in_range(
            s.selected_column as nat,
            s.viewer.num_cols as nat,
            (k - 1) as nat,
        );
    }
}

proof fn lemma_metadata_horizontal_next_iter(s: State, k: nat)
    requires
        s.wf(),
        s.tab == Tab::Metadata,
    ensures
        apply_cmds(s, repeated(Command::Next(ScrollType::Horizontal), k)) == (State {
            chunk_ind: iter_wrap_inc(
                s.chunk_ind as nat,
                s.viewer.num_row_groups as nat,
                k,
            ) as usize,
            ..s
        }),
    decreases k,
{
    let cmd = Command::Next(ScrollType::Horizontal);
    if k == 0 {
        assert(repeated(cmd, 0) =~= Seq::<Command>::empty());
        assert(State { chunk_ind: s.chunk_ind, ..s } == s);
    } else {
        lemma_metadata_horizontal_next_iter(s, (k - 1) as nat);
        assert(repeated(cmd, k).drop_last() =~= repeated(cmd, (k - 1) as nat));
        lemma_iter_wrap_inc_in_range(
            s.chunk_ind as nat,
            s.viewer.num_row_groups as nat,
            (k - 1) as nat,
        );
    }
}

proof fn lemma_metadata_horizontal_prev_iter(s: State, k: nat)
    requires
        s.wf(),
        s.tab == Tab::Metadata,
    ensures
        apply_cmds(s, repeated(Command::Previous(ScrollType::Horizontal), k)) == (State {
            chunk_ind: iter_wrap_dec(
                s.chunk_ind as nat,
                s.viewer.num_row_groups as nat,
                k,
            ) as usize,
            ..s
        }),
    decreases k,
{
    let cmd = Command::Previous(ScrollType::Horizontal);
    if k == 0 {
        assert(repeated(cmd, 0) =~= Seq::<Command>::empty());
        assert(State { chunk_ind: s.chunk_ind, ..s } == s);
    } else {
        lemma_metadata_horizontal_prev_iter(s, (k - 1) as nat);
        assert(repeated(cmd, k).drop_last() =~= repeated(cmd, (k - 1) as nat));
        lemma_iter_wrap_dec_in_range(
            s.chunk_ind as nat,
            s.viewer.num_row_groups as nat,
            (k - 1) as nat,
        );
    }
}

/// Cyclic property: on the metadata tab, moving the column selection
/// forward once per column returns the session to exactly where it
/// began.
pub proof fn lemma_metadata_vertical_next_cycle(s: State)
    requires
        s.wf(),
        s.tab == Tab::Metadata,
    ensures
        apply_cmds(
            s,
            repeated(Command::Next(ScrollType::Vertical), s.viewer.num_cols as nat),
        ) == s,
{
    let n = s.viewer.num_cols as nat;
    lemma_metadata_vertical_next_iter(s, n);
    lemma_iter_wrap_inc(s.selected_column as nat, n, n);
    assert(State { selected_column: s.selected_column, ..s } == s);
}

/// Cyclic property: on the metadata tab, moving the column selection
/// backward once per column returns the session to exactly where it
/// began.
pub proof fn lemma_metadata_vertical_prev_cycle(s: State)
    requires
        s.wf(),
        s.tab == Tab::Metadata,
    ensures
        apply_cmds(
            s,
            repeated(Command::Previous(ScrollType::Vertical), s.viewer.num_cols as nat),
        ) == s,
{
    let n = s.viewer.num_cols as nat;
    lemma_metadata_vertical_prev_iter(s, n);
    lemma_iter_wrap_dec(s.selected_column as nat, n, n);
    assert(State { selected_column: s.selected_column, ..s } == s);
}

/// Cyclic property: on the metadata tab, moving the chunk selection
/// forward once per row group returns the session to exactly where it
/// began.
pub proof fn lemma_metadata_horizontal_next_cycle(s: State)
    requires
        s.wf(),
        s.tab == Tab::Metadata,
    ensures
        apply_cmds(
            s,
            repeated(Command::Next(ScrollType::Horizontal), s.viewer.num_row_groups as nat),
        ) == s,
{
    let n = s.viewer.num_row_groups as nat;
    lemma_metadata_horizontal_next_iter(s, n);
    lemma_iter_wrap_inc(s.chunk_ind as nat, n, n);
    assert(State { chunk_ind: s.chunk_ind, ..s } == s);
}

/// Cyclic property: on the metadata tab, moving the chunk selection
/// backward once per row group returns the session to exactly where it
/// began.
pub proof fn lemma_metadata_horizontal_prev_cycle(s: State)
    requires
        s.wf(),
        s.tab == Tab::Metadata,
    ensures
        apply_cmds(
            s,
            repeated(Command::Previous(ScrollType::Horizontal), s.viewer.num_row_groups as nat),
        ) == s,
{
    let n = s.viewer.num_row_groups as nat;
    lemma_metadata_horizontal_prev_iter(s, n);
    lemma_iter_wrap_dec(s.chunk_ind as nat, n, n);
    assert(State { chunk_ind: s.chunk_ind, ..s } == s);
}

} // verus!
