//! The event dispatcher: consumes one abstract input action at a time and,
//! based on the current state, mutates the interaction state and/or asks the
//! caller to invoke one external collaborator operation.
//!
//! Collaborator operations (enumerating commits and branches, checking out,
//! reading commit details, committing and pushing, creating a branch,
//! merging) are not performed here: [`handle_event`] returns an [`Effect`]
//! naming the one operation to perform, and the caller reports the outcome
//! back through the `apply_*` functions, which surface it into state.  The
//! dispatcher itself never panics and preserves well-formedness on every
//! step.
//!
//! Failure policy: a failed checkout, commit-detail lookup, branch creation
//! or merge moves to the Error state carrying the message; a failed
//! commit-and-push returns to Normal regardless of the outcome.

use crate::app_state::{
    branch_nav_down, branch_nav_up, commit_nav_down, commit_nav_up, other_panel, AppState,
    CommitEntry, CommitState, InputMode, Panel, UIState,
};
use crate::viewport::{centered_viewport, paged_viewport, scrolled_down, scrolled_up, Viewport};
use vstd::prelude::*;

verus! {

/// A decoded, input-device-independent user intent.
#[derive(Clone, Copy, Debug)]
pub enum Action {
    Quit,
    Refresh,
    NavigateUp,
    NavigateDown,
    NavigateLeft,
    NavigateRight,
    Select,
    SwitchPanel,
    Deselect,
    CommitWork,
    CreateBranch,
    ShowKeyGuide,
    MergeBranch,
    TextInput(char),
    Backspace,
    Confirm,
    Cancel,
}

/// What the caller must do after a dispatch step: either nothing, or
/// terminate, or invoke exactly one collaborator operation and report its
/// outcome back through the matching `apply_*` function.
#[derive(Clone, Debug)]
pub enum Effect {
    /// No collaborator call; keep running.
    Continue,
    /// The user confirmed quitting; stop the interaction loop.
    Terminate,
    /// Look up one commit's detail text, then call
    /// [`apply_commit_details_result`].
    FetchCommitDetails { commit_id: String },
    /// Check out the branch, then call [`apply_checkout_success`] (with
    /// freshly listed commits and branches) or [`apply_checkout_failure`].
    Checkout { branch: String },
    /// Commit all changes with this message and push, then call
    /// [`apply_commit_push_success`] (with a freshly listed commit log) or
    /// [`apply_commit_push_failure`].
    CommitAndPush { message: Vec<char> },
    /// Create and switch to the branch, then call
    /// [`apply_create_branch_success`] (with a freshly listed branch list) or
    /// [`apply_create_branch_failure`].
    CreateBranchRequest { name: Vec<char> },
    /// Merge the checked-out branch into the target, then call
    /// [`apply_merge_success`] (with a freshly listed commit log) or
    /// [`apply_merge_failure`].
    Merge { target: String },
    /// List commits and branches afresh, then call [`apply_refresh`].
    Refresh,
}

/// Whitespace as the commit-message blank check understands it.
pub open spec fn is_space(c: char) -> bool {
    c == ' ' || c == '\t' || c == '\n' || c == '\r'
}

/// The buffer holds nothing but whitespace.
pub open spec fn is_blank(s: Seq<char>) -> bool {
    forall|i: int| 0 <= i < s.len() ==> is_space(s[i])
}

/// The list holds a branch named "main".
pub open spec fn has_main(branches: Seq<String>) -> bool {
    exists|i: int| 0 <= i < branches.len() && branches[i]@ == "main"@
}

/// The branch a confirmed merge targets: "main" when the list holds it, else
/// "master".
pub open spec fn merge_target(branches: Seq<String>) -> Seq<char> {
    if has_main(branches) {
        "main"@
    } else {
        "master"@
    }
}

/// A text buffer after typing one character.
pub open spec fn buffer_after_input(s: Seq<char>, c: char) -> Seq<char> {
    s.push(c)
}

/// A text buffer after one Backspace: the last character removed, a no-op on
/// an empty buffer.
pub open spec fn buffer_after_backspace(s: Seq<char>) -> Seq<char> {
    if s.len() > 0 {
        s.drop_last()
    } else {
        s
    }
}

/// A text buffer after typing a whole sequence of characters.
pub open spec fn buffer_after_inputs(s: Seq<char>, cs: Seq<char>) -> Seq<char>
    decreases cs.len(),
{
    if cs.len() == 0 {
        s
    } else {
        buffer_after_inputs(buffer_after_input(s, cs[0]), cs.subrange(1, cs.len() as int))
    }
}

/// A text buffer after `k` Backspaces.
pub open spec fn buffer_after_backspaces(s: Seq<char>, k: nat) -> Seq<char>
    decreases k,
{
    if k == 0 {
        s
    } else {
        buffer_after_backspaces(buffer_after_backspace(s), (k - 1) as nat)
    }
}

/// A horizontal scroll offset one column to the right, saturating at the top
/// of `usize` so the dispatcher never overflows.
pub open spec fn scrolled_right(offset: usize) -> usize {
    if offset < usize::MAX {
        (offset + 1) as usize
    } else {
        offset
    }
}

/// A cursor clamped into a list of length `n`: kept when still in range,
/// moved to the last entry when the list shrank past it, pinned to 0 on an
/// empty list.
pub open spec fn clamp_sel(sel: usize, n: usize) -> usize {
    if n == 0 {
        0usize
    } else if sel < n {
        sel
    } else {
        (n - 1) as usize
    }
}

/// One dispatch step in Text input mode.  Only `TextInput`, `Backspace`,
/// `Confirm` and `Cancel` are meaningful; every other action is ignored.
pub open spec fn text_step(pre: AppState, post: AppState, action: Action, eff: Effect) -> bool {
    match action {
        Action::TextInput(c) => {
            &&& eff is Continue
            &&& match pre.ui_state {
                UIState::CommitMessage => {
                    &&& post.commit_state is Some
                    &&& post.commit_state.unwrap().message@ == buffer_after_input(
                        pre.commit_message(),
                        c,
                    )
                    &&& post == (AppState { commit_state: post.commit_state, ..pre })
                },
                UIState::CreateBranch => {
                    &&& post.branch_input@ == buffer_after_input(pre.branch_input@, c)
                    &&& post == (AppState { branch_input: post.branch_input, ..pre })
                },
                _ => post == pre,
            }
        },
        Action::Backspace => {
            &&& eff is Continue
            &&& match pre.ui_state {
                UIState::CommitMessage => {
                    &&& post.commit_state is Some
                    &&& post.commit_state.unwrap().message@ == buffer_after_backspace(
                        pre.commit_message(),
                    )
                    &&& post == (AppState { commit_state: post.commit_state, ..pre })
                },
                UIState::CreateBranch => {
                    &&& post.branch_input@ == buffer_after_backspace(pre.branch_input@)
                    &&& post == (AppState { branch_input: post.branch_input, ..pre })
                },
                _ => post == pre,
            }
        },
        Action::Confirm => match pre.ui_state {
            UIState::CommitMessage => {
                &&& eff is Continue
                &&& if is_blank(pre.commit_message()) {
                    post == pre
                } else {
                    post == (AppState {
                        ui_state: UIState::ConfirmCommit,
                        input_mode: InputMode::Command,
                        ..pre
                    })
                }
            },
            UIState::CreateBranch => {
                &&& post == pre
                &&& eff matches Effect::CreateBranchRequest { name } && name@ == pre.branch_input@
            },
            _ => post == pre && eff is Continue,
        },
        Action::Cancel => {
            &&& eff is Continue
            &&& post.branch_input@ == Seq::<char>::empty()
            &&& post == (AppState {
                ui_state: UIState::Normal,
                input_mode: InputMode::Command,
                commit_state: None,
                branch_input: post.branch_input,
                ..pre
            })
        },
        _ => post == pre && eff is Continue,
    }
}

/// What Select does in Command mode, by UI state: confirm quitting, perform
/// the pending commit or merge, open a commit's details, or check out a
/// branch.  Selecting on an empty list is ignored.
pub open spec fn command_select_step(pre: AppState, post: AppState, eff: Effect) -> bool {
    match pre.ui_state {
        UIState::ConfirmQuit => post == pre && eff is Terminate,
        UIState::ConfirmCommit => {
            &&& post == pre
            &&& eff matches Effect::CommitAndPush { message } && message@ == pre.commit_message()
        },
        UIState::ConfirmMerge => {
            &&& post == pre
            &&& eff matches Effect::Merge { target } && target@ == merge_target(pre.branches@)
        },
        UIState::Normal => match pre.focused_panel {
            Panel::CommitLog => {
                if pre.commit_log@.len() == 0 {
                    post == pre && eff is Continue
                } else {
                    &&& post == pre
                    &&& eff matches Effect::FetchCommitDetails { commit_id } && commit_id@
                        == pre.commit_log@[pre.selected_index as int].id@
                }
            },
            Panel::Branches => {
                if pre.branches@.len() == 0 {
                    post == pre && eff is Continue
                } else {
                    &&& post == pre
                    &&& eff matches Effect::Checkout { branch } && branch@ == pre.branches@[
                        pre.selected_branch as int
                    ]@
                }
            },
        },
        _ => post == pre && eff is Continue,
    }
}

/// What Deselect does in Command mode: the exit transition of the current UI
/// state.  It never asks for a collaborator call; it only resets state —
/// clearing the commit-message buffer, the detail text or the error message
/// as appropriate to the state being left.
pub open spec fn deselect_step(pre: AppState, post: AppState) -> bool {
    match pre.ui_state {
        UIState::ConfirmQuit => post == (AppState { ui_state: UIState::Normal, ..pre }),
        UIState::ConfirmCommit => post == (AppState {
            ui_state: UIState::Normal,
            commit_state: None,
            ..pre
        }),
        UIState::CommitDetails => post == (AppState {
            ui_state: UIState::Normal,
            selected_commit_details: None,
            commit_detail_viewport: (Viewport {
                start: 0,
                end: 0,
                capacity: pre.commit_detail_viewport.capacity,
            }),
            ..pre
        }),
        UIState::KeyGuide => post == (AppState { ui_state: UIState::Normal, ..pre }),
        UIState::ConfirmMerge => post == (AppState { ui_state: UIState::Normal, ..pre }),
        UIState::Error => post == (AppState {
            ui_state: UIState::Normal,
            error_message: None,
            ..pre
        }),
        _ => post == pre,
    }
}

/// One dispatch step in Command mode, routed by `(ui_state, action)`.
pub open spec fn command_step(pre: AppState, post: AppState, action: Action, eff: Effect) -> bool {
    match action {
        Action::Quit => {
            &&& eff is Continue
            &&& if pre.ui_state is Normal {
                post == (AppState { ui_state: UIState::ConfirmQuit, ..pre })
            } else {
                post == pre
            }
        },
        Action::NavigateUp => {
            &&& eff is Continue
            &&& match pre.ui_state {
                UIState::CommitDetails => post == (AppState {
                    commit_detail_viewport: scrolled_up(
                        pre.commit_detail_viewport,
                        1,
                        pre.details_len(),
                    ),
                    ..pre
                }),
                UIState::Normal => match pre.focused_panel {
                    Panel::CommitLog => commit_nav_up(pre, post),
                    Panel::Branches => branch_nav_up(pre, post),
                },
                _ => post == pre,
            }
        },
        Action::NavigateDown => {
            &&& eff is Continue
            &&& match pre.ui_state {
                UIState::CommitDetails => post == (AppState {
                    commit_detail_viewport: scrolled_down(
                        pre.commit_detail_viewport,
                        1,
                        pre.details_len(),
                    ),
                    ..pre
                }),
                UIState::Normal => match pre.focused_panel {
                    Panel::CommitLog => commit_nav_down(pre, post),
                    Panel::Branches => branch_nav_down(pre, post),
                },
                _ => post == pre,
            }
        },
        Action::NavigateLeft => {
            &&& eff is Continue
            &&& if pre.ui_state is Normal && pre.focused_panel is CommitLog
                && pre.horizontal_offset > 0 {
                post == (AppState {
                    horizontal_offset: (pre.horizontal_offset - 1) as usize,
                    ..pre
                })
            } else {
                post == pre
            }
        },
        Action::NavigateRight => {
            &&& eff is Continue
            &&& if pre.ui_state is Normal && pre.focused_panel is CommitLog {
                post == (AppState {
                    horizontal_offset: scrolled_right(pre.horizontal_offset),
                    ..pre
                })
            } else {
                post == pre
            }
        },
        Action::Select => command_select_step(pre, post, eff),
        Action::SwitchPanel => {
            &&& eff is Continue
            &&& post == (AppState { focused_panel: other_panel(pre.focused_panel), ..pre })
        },
        Action::Refresh => post == pre && eff is Refresh,
        Action::Deselect => eff is Continue && deselect_step(pre, post),
        Action::CommitWork => {
            &&& eff is Continue
            &&& if pre.ui_state is Normal {
                &&& post.commit_state is Some
                &&& post.commit_state.unwrap().message@ == Seq::<char>::empty()
                &&& post == (AppState {
                    ui_state: UIState::CommitMessage,
                    input_mode: InputMode::Text,
                    commit_state: post.commit_state,
                    ..pre
                })
            } else {
                post == pre
            }
        },
        Action::CreateBranch => {
            &&& eff is Continue
            &&& if pre.ui_state is Normal {
                &&& post.branch_input@ == Seq::<char>::empty()
                &&& post == (AppState {
                    ui_state: UIState::CreateBranch,
                    input_mode: InputMode::Text,
                    branch_input: post.branch_input,
                    ..pre
                })
            } else {
                post == pre
            }
        },
        Action::ShowKeyGuide => {
            &&& eff is Continue
            &&& if pre.ui_state is Normal {
                post == (AppState { ui_state: UIState::KeyGuide, ..pre })
            } else {
                post == pre
            }
        },
        Action::MergeBranch => {
            &&& eff is Continue
            &&& if pre.ui_state is Normal {
                post == (AppState { ui_state: UIState::ConfirmMerge, ..pre })
            } else {
                post == pre
            }
        },
        _ => post == pre && eff is Continue,
    }
}

/// The buffer holds nothing but whitespace.
fn buffer_is_blank(buf: &Vec<char>) -> (r: bool)
    ensures
        r == is_blank(buf@),
{
    let mut i: usize = 0;
    while i < buf.len()
        invariant
            i <= buf@.len(),
            forall|j: int| 0 <= j < i ==> is_space(buf@[j]),
        decreases buf@.len() - i,
    {
        let c = buf[i];
        if !(c == ' ' || c == '\t' || c == '\n' || c == '\r') {
            return false;
        }
        i = i + 1;
    }
    true
}

/// The list holds a branch named "main".
fn branches_contain_main(branches: &Vec<String>) -> (r: bool)
    ensures
        r == has_main(branches@),
{
    let target: String = "main".to_owned();
    let mut i: usize = 0;
    while i < branches.len()
        invariant
            i <= branches@.len(),
            target@ == "main"@,
            forall|j: int| 0 <= j < i ==> branches@[j]@ != "main"@,
        decreases branches@.len() - i,
    {
        if branches[i] == target {
            return true;
        }
        i = i + 1;
    }
    false
}

/// A cursor clamped into a list of length `n`.
fn clamp_index(sel: usize, n: usize) -> (r: usize)
    ensures
        r == clamp_sel(sel, n),
{
    if n == 0 {
        0
    } else if sel < n {
        sel
    } else {
        n - 1
    }
}

/// Dispatch one action in Text input mode: append to or shorten the active
/// buffer, confirm it, or cancel back to Normal.
pub fn handle_text_mode(state: &mut AppState, action: Action) -> (eff: Effect)
    requires
        old(state).wf(),
        old(state).input_mode is Text,
    ensures
        final(state).wf(),
        text_step(*old(state), *final(state), action, eff),
{
    match action {
        Action::TextInput(c) => {
            match state.ui_state {
                UIState::CommitMessage => {
                    if let Some(commit_state) = &mut state.commit_state {
                        commit_state.message.push(c);
                    }
                },
                UIState::CreateBranch => {
                    state.branch_input.push(c);
                },
                _ => {},
            }
            Effect::Continue
        },
        Action::Backspace => {
            match state.ui_state {
                UIState::CommitMessage => {
                    if let Some(commit_state) = &mut state.commit_state {
                        if commit_state.message.len() > 0 {
                            commit_state.message.pop();
                        }
                    }
                },
                UIState::CreateBranch => {
                    if state.branch_input.len() > 0 {
                        state.branch_input.pop();
                    }
                },
                _ => {},
            }
            Effect::Continue
        },
        Action::Confirm => {
            match state.ui_state {
                UIState::CommitMessage => {
                    let blank = match &state.commit_state {
                        Some(commit_state) => buffer_is_blank(&commit_state.message),
                        None => true,
                    };
                    if !blank {
                        state.ui_state = UIState::ConfirmCommit;
                        state.input_mode = InputMode::Command;
                    }
                    Effect::Continue
                },
                UIState::CreateBranch => Effect::CreateBranchRequest {
                    name: state.branch_input.clone(),
                },
                _ => Effect::Continue,
            }
        },
        Action::Cancel => {
            state.ui_state = UIState::Normal;
            state.commit_state = None;
            state.branch_input = Vec::new();
            state.input_mode = InputMode::Command;
            Effect::Continue
        },
        _ => Effect::Continue,
    }
}

/// Dispatch one action in Command mode, routed by `(ui_state, action)`.
pub fn handle_command_mode(state: &mut AppState, action: Action) -> (eff: Effect)
    requires
        old(state).wf(),
        old(state).input_mode is Command,
    ensures
        final(state).wf(),
        command_step(*old(state), *final(state), action, eff),
{
    match action {
        Action::Quit => {
            if state.ui_state == UIState::Normal {
                state.ui_state = UIState::ConfirmQuit;
            }
            Effect::Continue
        },
        Action::NavigateUp => {
            match state.ui_state {
                UIState::CommitDetails => state.scroll_commit_details_up(1),
                UIState::Normal => match state.focused_panel {
                    Panel::CommitLog => state.select_previous(),
                    Panel::Branches => state.select_previous_branch(),
                },
                _ => {},
            }
            Effect::Continue
        },
        Action::NavigateDown => {
            match state.ui_state {
                UIState::CommitDetails => state.scroll_commit_details_down(1),
                UIState::Normal => match state.focused_panel {
                    Panel::CommitLog => state.select_next(),
                    Panel::Branches => state.select_next_branch(),
                },
                _ => {},
            }
            Effect::Continue
        },
        Action::NavigateLeft => {
            if state.ui_state == UIState::Normal && state.focused_panel == Panel::CommitLog
                && state.horizontal_offset > 0 {
                state.horizontal_offset = state.horizontal_offset - 1;
            }
            Effect::Continue
        },
        Action::NavigateRight => {
            if state.ui_state == UIState::Normal && state.focused_panel == Panel::CommitLog {
                if state.horizontal_offset < usize::MAX {
                    state.horizontal_offset = state.horizontal_offset + 1;
                }
            }
            Effect::Continue
        },
        Action::Select => match state.ui_state {
            UIState::ConfirmQuit => Effect::Terminate,
            UIState::ConfirmCommit => {
                match &state.commit_state {
                    Some(commit_state) => Effect::CommitAndPush {
                        message: commit_state.message.clone(),
                    },
                    None => Effect::Continue,
                }
            },
            UIState::ConfirmMerge => {
                let target: String = if branches_contain_main(&state.branches) {
                    "main".to_owned()
                } else {
                    "master".to_owned()
                };
                Effect::Merge { target }
            },
            UIState::Normal => match state.focused_panel {
                Panel::CommitLog => {
                    if state.commit_log.len() == 0 {
                        Effect::Continue
                    } else {
                        let commit_id = state.commit_log[state.selected_index].id.clone();
                        Effect::FetchCommitDetails { commit_id }
                    }
                },
                Panel::Branches => {
                    if state.branches.len() == 0 {
                        Effect::Continue
                    } else {
                        let branch = state.branches[state.selected_branch].clone();
                        Effect::Checkout { branch }
                    }
                },
            },
            _ => Effect::Continue,
        },
        Action::SwitchPanel => {
            state.focus_next_panel();
            Effect::Continue
        },
        Action::Refresh => Effect::Refresh,
        Action::Deselect => {
            match state.ui_state {
                UIState::ConfirmQuit => {
                    state.ui_state = UIState::Normal;
                },
                UIState::ConfirmCommit => {
                    state.ui_state = UIState::Normal;
                    state.commit_state = None;
                },
                UIState::CommitDetails => {
                    state.ui_state = UIState::Normal;
                    state.clear_selected_commit_details();
                },
                UIState::KeyGuide => {
                    state.ui_state = UIState::Normal;
                },
                UIState::ConfirmMerge => {
                    state.ui_state = UIState::Normal;
                },
                UIState::Error => {
                    state.ui_state = UIState::Normal;
                    state.error_message = None;
                },
                _ => {},
            }
            Effect::Continue
        },
        Action::CommitWork => {
            if state.ui_state == UIState::Normal {
                state.ui_state = UIState::CommitMessage;
                state.commit_state = Some(CommitState { message: Vec::new() });
                state.input_mode = InputMode::Text;
            }
            Effect::Continue
        },
        Action::CreateBranch => {
            if state.ui_state == UIState::Normal {
                state.ui_state = UIState::CreateBranch;
                state.input_mode = InputMode::Text;
                state.branch_input = Vec::new();
            }
            Effect::Continue
        },
        Action::ShowKeyGuide => {
            if state.ui_state == UIState::Normal {
                state.ui_state = UIState::KeyGuide;
            }
            Effect::Continue
        },
        Action::MergeBranch => {
            if state.ui_state == UIState::Normal {
                state.ui_state = UIState::ConfirmMerge;
            }
            Effect::Continue
        },
        _ => Effect::Continue,
    }
}

/// Dispatch one abstract action: route it by the current input mode and
/// return what the caller must do next.
pub fn handle_event(state: &mut AppState, action: Action) -> (eff: Effect)
    requires
        old(state).wf(),
    ensures
        final(state).wf(),
        old(state).input_mode is Command ==> command_step(
            *old(state),
            *final(state),
            action,
            eff,
        ),
        old(state).input_mode is Text ==> text_step(*old(state), *final(state), action, eff),
{
    match state.input_mode {
        InputMode::Command => handle_command_mode(state, action),
        InputMode::Text => handle_text_mode(state, action),
    }
}

/// Surface a refresh: replace both lists wholesale, reset both selections to
/// 0 and re-derive both viewports.
pub fn apply_refresh(state: &mut AppState, new_log: Vec<CommitEntry>, new_branches: Vec<String>)
    requires
        old(state).wf(),
    ensures
        final(state).wf(),
        *final(state) == (AppState {
            selected_index: 0,
            commit_log: new_log,
            commit_log_viewport: paged_viewport(
                0,
                new_log.len(),
                old(state).commit_log_viewport.capacity,
            ),
            selected_branch: 0,
            branches: new_branches,
            branch_viewport: centered_viewport(
                0,
                new_branches.len(),
                old(state).branch_viewport.capacity,
            ),
            ..*old(state)
        }),
{
    state.selected_index = 0;
    state.selected_branch = 0;
    state.commit_log = new_log;
    state.branches = new_branches;
    let n = state.commit_log.len();
    let cap = state.commit_log_viewport.capacity;
    state.commit_log_viewport.resize_paged(0, n, cap);
    let bn = state.branches.len();
    let bcap = state.branch_viewport.capacity;
    state.branch_viewport.resize_centered(0, bn, bcap);
}

/// Surface a commit-detail lookup's outcome: on success store the lines,
/// reset the detail window and enter the detail view; on failure enter the
/// Error state with the message.
pub fn apply_commit_details_result(state: &mut AppState, result: Result<Vec<String>, String>)
    requires
        old(state).wf(),
        old(state).ui_state is Normal,
    ensures
        final(state).wf(),
        result matches Ok(lines) ==> *final(state) == (AppState {
            ui_state: UIState::CommitDetails,
            selected_commit_details: Some(lines),
            commit_detail_viewport: (Viewport {
                start: 0,
                end: 0,
                capacity: old(state).commit_detail_viewport.capacity,
            }),
            ..*old(state)
        }),
        result matches Err(message) ==> *final(state) == (AppState {
            ui_state: UIState::Error,
            error_message: Some(message),
            ..*old(state)
        }),
{
    match result {
        Ok(lines) => {
            state.set_selected_commit_details(lines);
            state.ui_state = UIState::CommitDetails;
        },
        Err(message) => {
            state.ui_state = UIState::Error;
            state.error_message = Some(message);
        },
    }
}

/// Surface a successful checkout: record the new current branch, replace
/// both lists with the freshly listed ones, clamp both cursors into the new
/// lists and re-derive both viewports.
pub fn apply_checkout_success(
    state: &mut AppState,
    branch: String,
    new_log: Vec<CommitEntry>,
    new_branches: Vec<String>,
)
    requires
        old(state).wf(),
        old(state).ui_state is Normal,
    ensures
        final(state).wf(),
        *final(state) == (AppState {
            selected_index: clamp_sel(old(state).selected_index, new_log.len()),
            commit_log: new_log,
            commit_log_viewport: paged_viewport(
                clamp_sel(old(state).selected_index, new_log.len()),
                new_log.len(),
                old(state).commit_log_viewport.capacity,
            ),
            selected_branch: clamp_sel(old(state).selected_branch, new_branches.len()),
            branches: new_branches,
            branch_viewport: centered_viewport(
                clamp_sel(old(state).selected_branch, new_branches.len()),
                new_branches.len(),
                old(state).branch_viewport.capacity,
            ),
            current_branch: branch,
            ..*old(state)
        }),
{
    state.current_branch = branch;
    state.commit_log = new_log;
    state.branches = new_branches;
    let n = state.commit_log.len();
    state.selected_index = clamp_index(state.selected_index, n);
    let sel = state.selected_index;
    let cap = state.commit_log_viewport.capacity;
    state.commit_log_viewport.resize_paged(sel, n, cap);
    let bn = state.branches.len();
    state.selected_branch = clamp_index(state.selected_branch, bn);
    let bsel = state.selected_branch;
    let bcap = state.branch_viewport.capacity;
    state.branch_viewport.resize_centered(bsel, bn, bcap);
}

/// Surface a failed checkout: enter the Error state with the message and
/// mutate nothing else — in particular both lists stay unchanged.
pub fn apply_checkout_failure(state: &mut AppState, message: String)
    requires
        old(state).wf(),
        old(state).ui_state is Normal,
    ensures
        final(state).wf(),
        *final(state) == (AppState {
            ui_state: UIState::Error,
            error_message: Some(message),
            ..*old(state)
        }),
{
    state.ui_state = UIState::Error;
    state.error_message = Some(message);
}

/// Surface a successful commit-and-push: return to Normal, discard the
/// message buffer, replace the commit log with the freshly listed one, clamp
/// the cursor and re-derive the window.
pub fn apply_commit_push_success(state: &mut AppState, new_log: Vec<CommitEntry>)
    requires
        old(state).wf(),
        old(state).ui_state is ConfirmCommit,
    ensures
        final(state).wf(),
        *final(state) == (AppState {
            ui_state: UIState::Normal,
            commit_state: None,
            selected_index: clamp_sel(old(state).selected_index, new_log.len()),
            commit_log: new_log,
            commit_log_viewport: paged_viewport(
                clamp_sel(old(state).selected_index, new_log.len()),
                new_log.len(),
                old(state).commit_log_viewport.capacity,
            ),
            ..*old(state)
        }),
{
    state.ui_state = UIState::Normal;
    state.commit_state = None;
    state.commit_log = new_log;
    let n = state.commit_log.len();
    state.selected_index = clamp_index(state.selected_index, n);
    let sel = state.selected_index;
    let cap = state.commit_log_viewport.capacity;
    state.commit_log_viewport.resize_paged(sel, n, cap);
}

/// Surface a failed commit-and-push: return to Normal and discard the
/// message buffer, leaving everything else as it was — the workflow ends the
/// same way regardless of the operation's outcome.
pub fn apply_commit_push_failure(state: &mut AppState)
    requires
        old(state).wf(),
        old(state).ui_state is ConfirmCommit,
    ensures
        final(state).wf(),
        *final(state) == (AppState { ui_state: UIState::Normal, commit_state: None, ..*old(state) }),
{
    state.ui_state = UIState::Normal;
    state.commit_state = None;
}

/// Surface a successful branch creation: return to Normal in Command mode,
/// discard the name buffer, record the new current branch and replace the
/// branch list with the freshly listed one.
pub fn apply_create_branch_success(state: &mut AppState, name: String, new_branches: Vec<String>)
    requires
        old(state).wf(),
        old(state).ui_state is CreateBranch,
    ensures
        final(state).wf(),
        final(state).branch_input@ == Seq::<char>::empty(),
        *final(state) == (AppState {
            ui_state: UIState::Normal,
            input_mode: InputMode::Command,
            branch_input: final(state).branch_input,
            current_branch: name,
            selected_branch: clamp_sel(old(state).selected_branch, new_branches.len()),
            branches: new_branches,
            branch_viewport: centered_viewport(
                clamp_sel(old(state).selected_branch, new_branches.len()),
                new_branches.len(),
                old(state).branch_viewport.capacity,
            ),
            ..*old(state)
        }),
{
    state.ui_state = UIState::Normal;
    state.input_mode = InputMode::Command;
    state.branch_input = Vec::new();
    state.current_branch = name;
    state.branches = new_branches;
    let bn = state.branches.len();
    state.selected_branch = clamp_index(state.selected_branch, bn);
    let bsel = state.selected_branch;
    let bcap = state.branch_viewport.capacity;
    state.branch_viewport.resize_centered(bsel, bn, bcap);
}

/// Surface a failed branch creation: leave Text entry for the Error state
/// with the message, discarding the name buffer.
pub fn apply_create_branch_failure(state: &mut AppState, message: String)
    requires
        old(state).wf(),
        old(state).ui_state is CreateBranch,
    ensures
        final(state).wf(),
        final(state).branch_input@ == Seq::<char>::empty(),
        *final(state) == (AppState {
            ui_state: UIState::Error,
            input_mode: InputMode::Command,
            branch_input: final(state).branch_input,
            error_message: Some(message),
            ..*old(state)
        }),
{
    state.ui_state = UIState::Error;
    state.input_mode = InputMode::Command;
    state.branch_input = Vec::new();
    state.error_message = Some(message);
}

/// Surface a successful merge: return to Normal, replace the commit log with
/// the freshly listed one, clamp the cursor and re-derive the window.  The
/// error message was already absent and stays so.
pub fn apply_merge_success(state: &mut AppState, new_log: Vec<CommitEntry>)
    requires
        old(state).wf(),
        old(state).ui_state is ConfirmMerge,
    ensures
        final(state).wf(),
        *final(state) == (AppState {
            ui_state: UIState::Normal,
            selected_index: clamp_sel(old(state).selected_index, new_log.len()),
            commit_log: new_log,
            commit_log_viewport: paged_viewport(
                clamp_sel(old(state).selected_index, new_log.len()),
                new_log.len(),
                old(state).commit_log_viewport.capacity,
            ),
            ..*old(state)
        }),
{
    state.ui_state = UIState::Normal;
    state.commit_log = new_log;
    let n = state.commit_log.len();
    state.selected_index = clamp_index(state.selected_index, n);
    let sel = state.selected_index;
    let cap = state.commit_log_viewport.capacity;
    state.commit_log_viewport.resize_paged(sel, n, cap);
}

/// Surface a failed merge: enter the Error state with the message.
pub fn apply_merge_failure(state: &mut AppState, message: String)
    requires
        old(state).wf(),
        old(state).ui_state is ConfirmMerge,
    ensures
        final(state).wf(),
        *final(state) == (AppState {
            ui_state: UIState::Error,
            error_message: Some(message),
            ..*old(state)
        }),
{
    state.ui_state = UIState::Error;
    state.error_message = Some(message);
}

proof fn lemma_backspaces_unfold_last(s: Seq<char>, k: nat)
    ensures
        buffer_after_backspaces(s, k + 1) == buffer_after_backspace(buffer_after_backspaces(s, k)),
    decreases k,
{
    assert(buffer_after_backspaces(s, k + 1) == buffer_after_backspaces(
        buffer_after_backspace(s),
        k,
    ));
    if k > 0 {
        lemma_backspaces_unfold_last(buffer_after_backspace(s), (k - 1) as nat);
        assert(buffer_after_backspaces(s, k) == buffer_after_backspaces(
            buffer_after_backspace(s),
            (k - 1) as nat,
        ));
    } else {
        assert(buffer_after_backspaces(buffer_after_backspace(s), 0) == buffer_after_backspace(s));
        assert(buffer_after_backspaces(s, 0) == s);
    }
}

/// Law: typing any sequence of characters and then pressing Backspace the
/// same number of times returns the text buffer to its original value.
pub proof fn lemma_text_entry_round_trip(s: Seq<char>, cs: Seq<char>)
    ensures
        buffer_after_backspaces(buffer_after_inputs(s, cs), cs.len()) == s,
    decreases cs.len(),
{
    if cs.len() > 0 {
        let rest = cs.subrange(1, cs.len() as int);
        lemma_text_entry_round_trip(s.push(cs[0]), rest);
        lemma_backspaces_unfold_last(buffer_after_inputs(s.push(cs[0]), rest), rest.len());
        assert(s.push(cs[0]).drop_last() =~= s);
    }
}

} // verus!
