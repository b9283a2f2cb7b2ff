//! The interaction state: the focused panel, the UI state and input mode, the
//! two selectable lists with their cursors and viewports, the commit-detail
//! text, and the in-progress text buffers.
//!
//! Every mutating method preserves the well-formedness predicate
//! [`AppState::wf`] and pins the new state exactly in terms of the old one.

use crate::viewport::{
    centered_viewport, clipped, paged_viewport, scrolled_down, scrolled_up, stepped_down,
    stepped_up, Viewport,
};
use vstd::prelude::*;

verus! {

/// One of the two primary selectable lists.
#[derive(Clone, Copy, Debug, PartialEq, Eq, Structural)]
pub enum Panel {
    CommitLog,
    Branches,
}

/// The UI state, governing which actions are legal and what they mean.
#[derive(Clone, Copy, Debug, PartialEq, Eq, Structural)]
pub enum UIState {
    Normal,
    CommitMessage,
    ConfirmCommit,
    ConfirmQuit,
    CommitDetails,
    CreateBranch,
    KeyGuide,
    ConfirmMerge,
    Error,
}

/// How raw key events are decoded into abstract actions: whole commands, or
/// character-wise text entry.
#[derive(Clone, Copy, Debug, PartialEq, Eq, Structural)]
pub enum InputMode {
    Command,
    Text,
}

/// One commit summary record: an extractable identifier plus an opaque
/// display string.
#[derive(Clone, Debug)]
pub struct CommitEntry {
    pub id: String,
    pub display: String,
}

/// The in-progress commit message of the commit workflow.
#[derive(Clone, Debug)]
pub struct CommitState {
    pub message: Vec<char>,
}

/// The selection moved one step towards the front of a list; a no-op at the
/// front.
pub open spec fn nav_up(sel: int) -> int {
    if sel > 0 {
        sel - 1
    } else {
        sel
    }
}

/// The selection moved one step towards the back of a list of length `n`;
/// a no-op at the back and on an empty list.
pub open spec fn nav_down(sel: int, n: int) -> int {
    if sel + 1 < n {
        sel + 1
    } else {
        sel
    }
}

/// The whole application state, owned by the outer loop and mutated only by
/// the event dispatcher.
#[derive(Clone, Debug)]
pub struct AppState {
    /// Cursor into `commit_log`.
    pub selected_index: usize,
    /// The commit log, replaced wholesale on refresh.
    pub commit_log: Vec<CommitEntry>,
    /// Visible window of the commit log (page-aligned style).
    pub commit_log_viewport: Viewport,
    /// Horizontal scroll offset applied to commit-log rendering only.
    pub horizontal_offset: usize,
    /// The branch names, replaced wholesale on refresh.
    pub branches: Vec<String>,
    /// Cursor into `branches`.
    pub selected_branch: usize,
    /// Visible window of the branch list (centered style).
    pub branch_viewport: Viewport,
    /// Which list receives navigation actions while in the Normal UI state.
    pub focused_panel: Panel,
    /// The lines of one commit's detail text, populated when entering
    /// `CommitDetails` and cleared when leaving it.
    pub selected_commit_details: Option<Vec<String>>,
    /// Visible window of the commit-detail text (selection-less style).
    pub commit_detail_viewport: Viewport,
    /// Governs which actions are legal and what they mean.
    pub ui_state: UIState,
    /// The in-progress commit message, present in `CommitMessage` and
    /// `ConfirmCommit`.
    pub commit_state: Option<CommitState>,
    /// Text exactly while composing a commit message or a branch name.
    pub input_mode: InputMode,
    /// The in-progress branch name, meaningful only while `input_mode` is
    /// Text.
    pub branch_input: Vec<char>,
    /// The checked-out branch, used to highlight it in the branch list.
    pub current_branch: String,
    /// A failed operation's message, present exactly in the Error state.
    pub error_message: Option<String>,
}

impl AppState {
    /// How many lines the commit-detail text has; 0 when absent.
    pub open spec fn details_len(self) -> usize {
        match self.selected_commit_details {
            Some(lines) => lines.len(),
            None => 0usize,
        }
    }

    /// The pending commit-message buffer; empty when absent.
    pub open spec fn commit_message(self) -> Seq<char> {
        match self.commit_state {
            Some(cs) => cs.message@,
            None => Seq::<char>::empty(),
        }
    }

    /// Well-formedness, established by the constructor and preserved by every
    /// method and by the event dispatcher:
    /// - each viewport is a valid window over its sequence;
    /// - each cursor lies inside its list whenever the list is non-empty, and
    ///   is pinned to 0 when it is empty;
    /// - the input mode is Text exactly while composing a commit message or a
    ///   branch name;
    /// - the commit workflow states carry a message buffer, the Error state
    ///   carries a message, and the detail view carries its text.
    pub open spec fn wf(self) -> bool {
        &&& self.commit_log_viewport.wf(self.commit_log@.len())
        &&& self.branch_viewport.wf(self.branches@.len())
        &&& self.commit_detail_viewport.wf(self.details_len() as nat)
        &&& if self.commit_log@.len() == 0 {
            self.selected_index == 0
        } else {
            self.selected_index < self.commit_log@.len()
        }
        &&& if self.branches@.len() == 0 {
            self.selected_branch == 0
        } else {
            self.selected_branch < self.branches@.len()
        }
        &&& (self.input_mode is Text <==> (self.ui_state is CommitMessage
            || self.ui_state is CreateBranch))
        &&& ((self.ui_state is CommitMessage || self.ui_state is ConfirmCommit)
            ==> self.commit_state is Some)
        &&& (self.ui_state is Error <==> self.error_message is Some)
        &&& (self.ui_state is CommitDetails ==> self.selected_commit_details is Some)
    }

    /// Construct the state from an initial commit log, branch list and the
    /// name of the checked-out branch.  The branch cursor starts on the first
    /// occurrence of that name, or at 0 when the list does not hold it.
    pub fn new(commit_log: Vec<CommitEntry>, branches: Vec<String>, current_branch: String) -> (s:
        AppState)
        ensures
            s.wf(),
            s.selected_index == 0,
            s.commit_log == commit_log,
            s.commit_log_viewport == (Viewport { start: 0, end: 0, capacity: 10 }),
            s.horizontal_offset == 0,
            s.branches == branches,
            s.branch_viewport == (Viewport { start: 0, end: 0, capacity: 10 }),
            s.focused_panel is CommitLog,
            s.selected_commit_details is None,
            s.commit_detail_viewport == (Viewport { start: 0, end: 0, capacity: 0 }),
            s.ui_state is Normal,
            s.commit_state is None,
            s.input_mode is Command,
            s.branch_input@ == Seq::<char>::empty(),
            s.current_branch == current_branch,
            s.error_message is None,
            (exists|i: int|
                0 <= i < branches@.len() && branches@[i]@ == current_branch@) ==> {
                &&& s.selected_branch < branches@.len()
                &&& branches@[s.selected_branch as int]@ == current_branch@
                &&& forall|j: int|
                    0 <= j < s.selected_branch ==> branches@[j]@ != current_branch@
            },
            (forall|i: int| 0 <= i < branches@.len() ==> branches@[i]@ != current_branch@)
                ==> s.selected_branch == 0,
    {
        let mut selected_branch: usize = 0;
        let mut found = false;
        let mut i: usize = 0;
        while i < branches.len()
            invariant
                i <= branches@.len(),
                !found ==> selected_branch == 0,
                !found ==> forall|j: int| 0 <= j < i ==> branches@[j]@ != current_branch@,
                found ==> {
                    &&& selected_branch < i
                    &&& branches@[selected_branch as int]@ == current_branch@
                    &&& forall|j: int|
                        0 <= j < selected_branch ==> branches@[j]@ != current_branch@
                },
            decreases branches@.len() - i,
        {
            if !found && branches[i] == current_branch {
                found = true;
                selected_branch = i;
            }
            i = i + 1;
        }
        AppState {
            selected_index: 0,
            commit_log,
            commit_log_viewport: Viewport::new(10),
            horizontal_offset: 0,
            branches,
            selected_branch,
            branch_viewport: Viewport::new(10),
            focused_panel: Panel::CommitLog,
            selected_commit_details: None,
            commit_detail_viewport: Viewport::new(0),
            ui_state: UIState::Normal,
            commit_state: None,
            input_mode: InputMode::Command,
            branch_input: Vec::new(),
            current_branch,
            error_message: None,
        }
    }

    /// Re-derive the commit-log window around the current selection by
    /// page-aligned paging, with the current capacity.
    pub fn update_visible_range(&mut self)
        requires
            old(self).wf(),
        ensures
            final(self).wf(),
            *final(self) == (AppState {
                commit_log_viewport: paged_viewport(
                    old(self).selected_index,
                    old(self).commit_log.len(),
                    old(self).commit_log_viewport.capacity,
                ),
                ..*old(self)
            }),
    {
        let sel = self.selected_index;
        let n = self.commit_log.len();
        let cap = self.commit_log_viewport.capacity;
        self.commit_log_viewport.resize_paged(sel, n, cap);
    }

    /// Record how many commit-log entries fit on screen and re-derive the
    /// window.  Called every render pass, because terminal size and chrome
    /// may change.
    pub fn set_visible_count(&mut self, capacity: usize)
        requires
            old(self).wf(),
        ensures
            final(self).wf(),
            *final(self) == (AppState {
                commit_log_viewport: paged_viewport(
                    old(self).selected_index,
                    old(self).commit_log.len(),
                    capacity,
                ),
                ..*old(self)
            }),
    {
        let sel = self.selected_index;
        let n = self.commit_log.len();
        self.commit_log_viewport.resize_paged(sel, n, capacity);
    }

    /// Shift the commit-log window one entry towards the front.
    pub fn scroll_up(&mut self)
        requires
            old(self).wf(),
        ensures
            final(self).wf(),
            *final(self) == (AppState {
                commit_log_viewport: stepped_up(old(self).commit_log_viewport),
                ..*old(self)
            }),
    {
        let n = self.commit_log.len();
        self.commit_log_viewport.step_up(n);
    }

    /// Shift the commit-log window one entry towards the back.
    pub fn scroll_down(&mut self)
        requires
            old(self).wf(),
        ensures
            final(self).wf(),
            *final(self) == (AppState {
                commit_log_viewport: stepped_down(
                    old(self).commit_log_viewport,
                    old(self).commit_log.len(),
                ),
                ..*old(self)
            }),
    {
        let n = self.commit_log.len();
        self.commit_log_viewport.step_down(n);
    }

    /// Re-derive the branch window as one centered on the current selection,
    /// with the current capacity.
    pub fn update_branch_visible_range(&mut self)
        requires
            old(self).wf(),
        ensures
            final(self).wf(),
            *final(self) == (AppState {
                branch_viewport: centered_viewport(
                    old(self).selected_branch,
                    old(self).branches.len(),
                    old(self).branch_viewport.capacity,
                ),
                ..*old(self)
            }),
    {
        let sel = self.selected_branch;
        let n = self.branches.len();
        let cap = self.branch_viewport.capacity;
        self.branch_viewport.resize_centered(sel, n, cap);
    }

    /// Record how many branches fit on screen and re-derive the window.
    pub fn set_branch_visible_count(&mut self, capacity: usize)
        requires
            old(self).wf(),
        ensures
            final(self).wf(),
            *final(self) == (AppState {
                branch_viewport: centered_viewport(
                    old(self).selected_branch,
                    old(self).branches.len(),
                    capacity,
                ),
                ..*old(self)
            }),
    {
        let sel = self.selected_branch;
        let n = self.branches.len();
        self.branch_viewport.resize_centered(sel, n, capacity);
    }

    /// Move the branch selection one entry up and re-center its window; a
    /// no-op at the front.
    pub fn select_previous_branch(&mut self)
        requires
            old(self).wf(),
        ensures
            final(self).wf(),
            branch_nav_up(*old(self), *final(self)),
            final(self).selected_branch == nav_up(old(self).selected_branch as int),
    {
        if self.selected_branch > 0 {
            self.selected_branch = self.selected_branch - 1;
            self.update_branch_visible_range();
        }
    }

    /// Move the branch selection one entry down and re-center its window; a
    /// no-op at the back and on an empty list.
    pub fn select_next_branch(&mut self)
        requires
            old(self).wf(),
        ensures
            final(self).wf(),
            branch_nav_down(*old(self), *final(self)),
            final(self).selected_branch == nav_down(
                old(self).selected_branch as int,
                old(self).branches@.len() as int,
            ),
    {
        let len = self.branches.len();
        if len > 0 && self.selected_branch < len - 1 {
            self.selected_branch = self.selected_branch + 1;
            self.update_branch_visible_range();
        }
    }

    /// Toggle the focused panel between the commit log and the branch list.
    pub fn focus_next_panel(&mut self)
        requires
            old(self).wf(),
        ensures
            final(self).wf(),
            *final(self) == (AppState {
                focused_panel: other_panel(old(self).focused_panel),
                ..*old(self)
            }),
    {
        self.focused_panel = match self.focused_panel {
            Panel::CommitLog => Panel::Branches,
            Panel::Branches => Panel::CommitLog,
        };
    }

    /// Move the commit selection one entry up; when it leaves the window at
    /// the front, the window follows by one entry.  A no-op at the front.
    pub fn select_previous(&mut self)
        requires
            old(self).wf(),
        ensures
            final(self).wf(),
            commit_nav_up(*old(self), *final(self)),
            final(self).selected_index == nav_up(old(self).selected_index as int),
    {
        if self.selected_index > 0 {
            self.selected_index = self.selected_index - 1;
            if self.selected_index < self.commit_log_viewport.start {
                self.scroll_up();
            }
        }
    }

    /// Move the commit selection one entry down; when it leaves the window at
    /// the back, the window follows by one entry.  A no-op at the back and on
    /// an empty log.
    pub fn select_next(&mut self)
        requires
            old(self).wf(),
        ensures
            final(self).wf(),
            commit_nav_down(*old(self), *final(self)),
            final(self).selected_index == nav_down(
                old(self).selected_index as int,
                old(self).commit_log@.len() as int,
            ),
    {
        let len = self.commit_log.len();
        if len > 0 && self.selected_index < len - 1 {
            self.selected_index = self.selected_index + 1;
            if self.selected_index >= self.commit_log_viewport.end {
                self.scroll_down();
            }
        }
    }

    /// Store one commit's detail text and reset the detail window to the
    /// origin.
    pub fn set_selected_commit_details(&mut self, details: Vec<String>)
        requires
            old(self).wf(),
        ensures
            final(self).wf(),
            *final(self) == (AppState {
                selected_commit_details: Some(details),
                commit_detail_viewport: (Viewport {
                    start: 0,
                    end: 0,
                    capacity: old(self).commit_detail_viewport.capacity,
                }),
                ..*old(self)
            }),
    {
        self.selected_commit_details = Some(details);
        self.commit_detail_viewport.start = 0;
        self.commit_detail_viewport.end = 0;
    }

    /// Discard the commit-detail text and reset the detail window.  Callers
    /// leave the detail view first.
    pub fn clear_selected_commit_details(&mut self)
        requires
            old(self).wf(),
            !(old(self).ui_state is CommitDetails),
        ensures
            final(self).wf(),
            *final(self) == (AppState {
                selected_commit_details: None,
                commit_detail_viewport: (Viewport {
                    start: 0,
                    end: 0,
                    capacity: old(self).commit_detail_viewport.capacity,
                }),
                ..*old(self)
            }),
    {
        self.selected_commit_details = None;
        self.commit_detail_viewport.start = 0;
        self.commit_detail_viewport.end = 0;
    }

    /// Re-derive the detail window for how many lines fit on screen, keeping
    /// its start.
    pub fn update_commit_details_visible_range(&mut self, chunk_height: usize)
        requires
            old(self).wf(),
        ensures
            final(self).wf(),
            *final(self) == (AppState {
                commit_detail_viewport: clipped(
                    old(self).commit_detail_viewport,
                    chunk_height,
                    old(self).details_len(),
                ),
                ..*old(self)
            }),
    {
        let n = match &self.selected_commit_details {
            Some(lines) => lines.len(),
            None => 0,
        };
        self.commit_detail_viewport.clip(chunk_height, n);
    }

    /// Scroll the detail window `lines` lines towards the front, preserving
    /// its size.
    pub fn scroll_commit_details_up(&mut self, lines: usize)
        requires
            old(self).wf(),
        ensures
            final(self).wf(),
            *final(self) == (AppState {
                commit_detail_viewport: scrolled_up(
                    old(self).commit_detail_viewport,
                    lines,
                    old(self).details_len(),
                ),
                ..*old(self)
            }),
    {
        let n = match &self.selected_commit_details {
            Some(text) => text.len(),
            None => 0,
        };
        self.commit_detail_viewport.scroll_lines_up(lines, n);
    }

    /// Scroll the detail window `lines` lines towards the back, preserving
    /// its size and never extending past the text.
    pub fn scroll_commit_details_down(&mut self, lines: usize)
        requires
            old(self).wf(),
        ensures
            final(self).wf(),
            *final(self) == (AppState {
                commit_detail_viewport: scrolled_down(
                    old(self).commit_detail_viewport,
                    lines,
                    old(self).details_len(),
                ),
                ..*old(self)
            }),
    {
        let n = match &self.selected_commit_details {
            Some(text) => text.len(),
            None => 0,
        };
        self.commit_detail_viewport.scroll_lines_down(lines, n);
    }

    /// Move the commit selection a full page up, floored at 0, and re-derive
    /// the window; a no-op at the front.
    pub fn jump_commit_log_up(&mut self)
        requires
            old(self).wf(),
        ensures
            final(self).wf(),
            commit_jump_up(*old(self), *final(self)),
    {
        if self.selected_index > 0 {
            let page = self.commit_log_viewport.capacity;
            self.selected_index = if self.selected_index >= page {
                self.selected_index - page
            } else {
                0
            };
            self.update_visible_range();
        }
    }

    /// Move the commit selection a full page down, clamped to the last entry,
    /// and re-derive the window; a no-op at the back and on an empty log.
    pub fn jump_commit_log_down(&mut self)
        requires
            old(self).wf(),
        ensures
            final(self).wf(),
            commit_jump_down(*old(self), *final(self)),
    {
        let len = self.commit_log.len();
        if len > 0 && self.selected_index < len - 1 {
            let page = self.commit_log_viewport.capacity;
            self.selected_index = if len - 1 - self.selected_index >= page {
                self.selected_index + page
            } else {
                len - 1
            };
            self.update_visible_range();
        }
    }

    /// Move the branch selection a full page up, floored at 0, and re-center
    /// the window; a no-op at the front.
    pub fn jump_branches_up(&mut self)
        requires
            old(self).wf(),
        ensures
            final(self).wf(),
            branch_jump_up(*old(self), *final(self)),
    {
        if self.selected_branch > 0 {
            let page = self.branch_viewport.capacity;
            self.selected_branch = if self.selected_branch >= page {
                self.selected_branch - page
            } else {
                0
            };
            self.update_branch_visible_range();
        }
    }

    /// Move the branch selection a full page down, clamped to the last entry,
    /// and re-center the window; a no-op at the back and on an empty list.
    pub fn jump_branches_down(&mut self)
        requires
            old(self).wf(),
        ensures
            final(self).wf(),
            branch_jump_down(*old(self), *final(self)),
    {
        let len = self.branches.len();
        if len > 0 && self.selected_branch < len - 1 {
            let page = self.branch_viewport.capacity;
            self.selected_branch = if len - 1 - self.selected_branch >= page {
                self.selected_branch + page
            } else {
                len - 1
            };
            self.update_branch_visible_range();
        }
    }
}

/// The panel that is not `p`.
pub open spec fn other_panel(p: Panel) -> Panel {
    match p {
        Panel::CommitLog => Panel::Branches,
        Panel::Branches => Panel::CommitLog,
    }
}

/// One up-navigation on the commit log: selection one entry up; the window
/// follows by one entry when the selection leaves it at the front.
pub open spec fn commit_nav_up(pre: AppState, post: AppState) -> bool {
    if pre.selected_index > 0 {
        let new_sel = (pre.selected_index - 1) as usize;
        let new_vp = if new_sel < pre.commit_log_viewport.start {
            stepped_up(pre.commit_log_viewport)
        } else {
            pre.commit_log_viewport
        };
        post == (AppState { selected_index: new_sel, commit_log_viewport: new_vp, ..pre })
    } else {
        post == pre
    }
}

/// One down-navigation on the commit log: selection one entry down; the
/// window follows by one entry when the selection leaves it at the back.
pub open spec fn commit_nav_down(pre: AppState, post: AppState) -> bool {
    if pre.commit_log@.len() > 0 && pre.selected_index + 1 < pre.commit_log@.len() {
        let new_sel = (pre.selected_index + 1) as usize;
        let new_vp = if new_sel >= pre.commit_log_viewport.end {
            stepped_down(pre.commit_log_viewport, pre.commit_log.len())
        } else {
            pre.commit_log_viewport
        };
        post == (AppState { selected_index: new_sel, commit_log_viewport: new_vp, ..pre })
    } else {
        post == pre
    }
}

/// One up-navigation on the branch list: selection one entry up, window
/// re-centered.
pub open spec fn branch_nav_up(pre: AppState, post: AppState) -> bool {
    if pre.selected_branch > 0 {
        let new_sel = (pre.selected_branch - 1) as usize;
        post == (AppState {
            selected_branch: new_sel,
            branch_viewport: centered_viewport(
                new_sel,
                pre.branches.len(),
                pre.branch_viewport.capacity,
            ),
            ..pre
        })
    } else {
        post == pre
    }
}

/// One down-navigation on the branch list: selection one entry down, window
/// re-centered.
pub open spec fn branch_nav_down(pre: AppState, post: AppState) -> bool {
    if pre.branches@.len() > 0 && pre.selected_branch + 1 < pre.branches@.len() {
        let new_sel = (pre.selected_branch + 1) as usize;
        post == (AppState {
            selected_branch: new_sel,
            branch_viewport: centered_viewport(
                new_sel,
                pre.branches.len(),
                pre.branch_viewport.capacity,
            ),
            ..pre
        })
    } else {
        post == pre
    }
}

/// One page-up jump on the commit log: selection a full page up, floored at
/// 0, window re-derived; a no-op at the front.
pub open spec fn commit_jump_up(pre: AppState, post: AppState) -> bool {
    if pre.selected_index > 0 {
        let page = pre.commit_log_viewport.capacity;
        let new_sel = if pre.selected_index >= page {
            (pre.selected_index - page) as usize
        } else {
            0usize
        };
        post == (AppState {
            selected_index: new_sel,
            commit_log_viewport: paged_viewport(new_sel, pre.commit_log.len(), page),
            ..pre
        })
    } else {
        post == pre
    }
}

/// One page-down jump on the commit log: selection a full page down, clamped
/// to the last entry, window re-derived; a no-op at the back and on an empty
/// log.
pub open spec fn commit_jump_down(pre: AppState, post: AppState) -> bool {
    if pre.commit_log@.len() > 0 && pre.selected_index + 1 < pre.commit_log@.len() {
        let page = pre.commit_log_viewport.capacity;
        let new_sel = if pre.selected_index + page < pre.commit_log@.len() {
            (pre.selected_index + page) as usize
        } else {
            (pre.commit_log@.len() - 1) as usize
        };
        post == (AppState {
            selected_index: new_sel,
            commit_log_viewport: paged_viewport(new_sel, pre.commit_log.len(), page),
            ..pre
        })
    } else {
        post == pre
    }
}

/// One page-up jump on the branch list.
pub open spec fn branch_jump_up(pre: AppState, post: AppState) -> bool {
    if pre.selected_branch > 0 {
        let page = pre.branch_viewport.capacity;
        let new_sel = if pre.selected_branch >= page {
            (pre.selected_branch - page) as usize
        } else {
            0usize
        };
        post == (AppState {
            selected_branch: new_sel,
            branch_viewport: centered_viewport(new_sel, pre.branches.len(), page),
            ..pre
        })
    } else {
        post == pre
    }
}

/// One page-down jump on the branch list.
pub open spec fn branch_jump_down(pre: AppState, post: AppState) -> bool {
    if pre.branches@.len() > 0 && pre.selected_branch + 1 < pre.branches@.len() {
        let page = pre.branch_viewport.capacity;
        let new_sel = if pre.selected_branch + page < pre.branches@.len() {
            (pre.selected_branch + page) as usize
        } else {
            (pre.branches@.len() - 1) as usize
        };
        post == (AppState {
            selected_branch: new_sel,
            branch_viewport: centered_viewport(new_sel, pre.branches.len(), page),
            ..pre
        })
    } else {
        post == pre
    }
}

/// The selection after a whole sequence of up/down navigation moves on a list
/// of length `n`: `true` stands for a move up, `false` for a move down.
pub open spec fn apply_nav_moves(sel: int, n: int, moves: Seq<bool>) -> int
    decreases moves.len(),
{
    if moves.len() == 0 {
        sel
    } else {
        let next = if moves[0] {
            nav_up(sel)
        } else {
            nav_down(sel, n)
        };
        apply_nav_moves(next, n, moves.subrange(1, moves.len() as int))
    }
}

/// Law: every sequence of up/down navigation moves keeps the selection inside
/// `[0, n)` on a non-empty list — it never underflows below 0 and never
/// reaches `n` — and keeps it pinned to 0 on an empty list.
pub proof fn lemma_nav_moves_stay_in_bounds(sel: int, n: int, moves: Seq<bool>)
    requires
        if n == 0 {
            sel == 0
        } else {
            0 <= sel < n
        },
    ensures
        if n == 0 {
            apply_nav_moves(sel, n, moves) == 0
        } else {
            0 <= apply_nav_moves(sel, n, moves) < n
        },
    decreases moves.len(),
{
    if moves.len() > 0 {
        let next = if moves[0] {
            nav_up(sel)
        } else {
            nav_down(sel, n)
        };
        lemma_nav_moves_stay_in_bounds(next, n, moves.subrange(1, moves.len() as int));
    }
}

} // verus!
