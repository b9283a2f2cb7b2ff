use ezgit_rs::app_state::{AppState, CommitEntry, InputMode, Panel, UIState};

fn entry(id: &str, display: &str) -> CommitEntry {
    CommitEntry { id: id.to_string(), display: display.to_string() }
}

fn log_of(n: usize) -> Vec<CommitEntry> {
    (0..n).map(|i| entry(&format!("id{i}"), &format!("commit {i}"))).collect()
}

fn branches_of(names: &[&str]) -> Vec<String> {
    names.iter().map(|s| s.to_string()).collect()
}

#[test]
fn new_starts_in_normal_command_mode() {
    let s = AppState::new(log_of(3), branches_of(&["main", "dev"]), "main".to_string());
    assert_eq!(s.selected_index, 0);
    assert_eq!(s.ui_state, UIState::Normal);
    assert_eq!(s.input_mode, InputMode::Command);
    assert_eq!(s.focused_panel, Panel::CommitLog);
    assert!(s.commit_state.is_none());
    assert!(s.selected_commit_details.is_none());
    assert!(s.error_message.is_none());
    assert_eq!(s.horizontal_offset, 0);
    assert_eq!(s.current_branch, "main");
}

#[test]
fn new_selects_the_checked_out_branch() {
    let s = AppState::new(log_of(1), branches_of(&["dev", "main", "fix"]), "main".to_string());
    assert_eq!(s.selected_branch, 1);
}

#[test]
fn new_defaults_to_first_branch_when_current_is_absent() {
    let s = AppState::new(log_of(1), branches_of(&["dev", "fix"]), "gone".to_string());
    assert_eq!(s.selected_branch, 0);
}

#[test]
fn select_next_moves_cursor_and_window_follows() {
    let mut s = AppState::new(log_of(5), branches_of(&["main"]), "main".to_string());
    s.set_visible_count(2);
    assert_eq!((s.commit_log_viewport.start, s.commit_log_viewport.end), (0, 2));
    s.select_next();
    assert_eq!(s.selected_index, 1);
    assert_eq!((s.commit_log_viewport.start, s.commit_log_viewport.end), (0, 2));
    s.select_next();
    assert_eq!(s.selected_index, 2);
    assert_eq!((s.commit_log_viewport.start, s.commit_log_viewport.end), (1, 3));
}

#[test]
fn select_next_stops_at_last_entry() {
    let mut s = AppState::new(log_of(2), branches_of(&["main"]), "main".to_string());
    s.set_visible_count(10);
    s.select_next();
    s.select_next();
    s.select_next();
    assert_eq!(s.selected_index, 1);
}

#[test]
fn select_previous_moves_cursor_and_window_follows() {
    let mut s = AppState::new(log_of(5), branches_of(&["main"]), "main".to_string());
    s.set_visible_count(2);
    s.select_next();
    s.select_next();
    s.select_next();
    assert_eq!(s.selected_index, 3);
    assert_eq!((s.commit_log_viewport.start, s.commit_log_viewport.end), (2, 4));
    s.select_previous();
    assert_eq!(s.selected_index, 2);
    assert_eq!((s.commit_log_viewport.start, s.commit_log_viewport.end), (2, 4));
    s.select_previous();
    assert_eq!(s.selected_index, 1);
    assert_eq!((s.commit_log_viewport.start, s.commit_log_viewport.end), (1, 3));
}

#[test]
fn select_previous_stops_at_zero() {
    let mut s = AppState::new(log_of(3), branches_of(&["main"]), "main".to_string());
    s.select_previous();
    assert_eq!(s.selected_index, 0);
}

#[test]
fn navigation_on_empty_log_keeps_cursor_at_zero() {
    let mut s = AppState::new(Vec::new(), branches_of(&["main"]), "main".to_string());
    s.set_visible_count(10);
    s.select_next();
    assert_eq!(s.selected_index, 0);
    s.select_previous();
    assert_eq!(s.selected_index, 0);
    s.jump_commit_log_down();
    assert_eq!(s.selected_index, 0);
    s.jump_commit_log_up();
    assert_eq!(s.selected_index, 0);
    assert_eq!((s.commit_log_viewport.start, s.commit_log_viewport.end), (0, 0));
}

#[test]
fn navigation_on_empty_branch_list_keeps_cursor_at_zero() {
    let mut s = AppState::new(log_of(1), Vec::new(), "main".to_string());
    s.select_next_branch();
    assert_eq!(s.selected_branch, 0);
    s.select_previous_branch();
    assert_eq!(s.selected_branch, 0);
    s.jump_branches_down();
    assert_eq!(s.selected_branch, 0);
    s.jump_branches_up();
    assert_eq!(s.selected_branch, 0);
}

#[test]
fn branch_navigation_recenters_window() {
    let mut s = AppState::new(log_of(1), branches_of(&["a", "b", "c", "d", "e", "f"]), "a".to_string());
    s.set_branch_visible_count(4);
    assert_eq!((s.branch_viewport.start, s.branch_viewport.end), (0, 4));
    s.select_next_branch();
    s.select_next_branch();
    s.select_next_branch();
    assert_eq!(s.selected_branch, 3);
    assert_eq!((s.branch_viewport.start, s.branch_viewport.end), (1, 5));
    s.select_previous_branch();
    assert_eq!(s.selected_branch, 2);
    assert_eq!((s.branch_viewport.start, s.branch_viewport.end), (0, 4));
}

#[test]
fn jump_commit_log_moves_a_full_page() {
    let mut s = AppState::new(log_of(25), branches_of(&["main"]), "main".to_string());
    s.set_visible_count(10);
    s.jump_commit_log_down();
    assert_eq!(s.selected_index, 10);
    assert_eq!((s.commit_log_viewport.start, s.commit_log_viewport.end), (10, 20));
    s.jump_commit_log_down();
    assert_eq!(s.selected_index, 20);
    assert_eq!((s.commit_log_viewport.start, s.commit_log_viewport.end), (20, 25));
    s.jump_commit_log_down();
    assert_eq!(s.selected_index, 24);
    s.jump_commit_log_up();
    assert_eq!(s.selected_index, 14);
    assert_eq!((s.commit_log_viewport.start, s.commit_log_viewport.end), (10, 20));
    s.jump_commit_log_up();
    s.jump_commit_log_up();
    assert_eq!(s.selected_index, 0);
}

#[test]
fn jump_branches_moves_a_full_page() {
    let names: Vec<String> = (0..12).map(|i| format!("b{i}")).collect();
    let mut s = AppState::new(log_of(1), names, "b0".to_string());
    s.set_branch_visible_count(5);
    s.jump_branches_down();
    assert_eq!(s.selected_branch, 5);
    s.jump_branches_down();
    assert_eq!(s.selected_branch, 10);
    s.jump_branches_down();
    assert_eq!(s.selected_branch, 11);
    s.jump_branches_up();
    assert_eq!(s.selected_branch, 6);
}

#[test]
fn focus_next_panel_toggles() {
    let mut s = AppState::new(log_of(1), branches_of(&["main"]), "main".to_string());
    s.focus_next_panel();
    assert_eq!(s.focused_panel, Panel::Branches);
    s.focus_next_panel();
    assert_eq!(s.focused_panel, Panel::CommitLog);
}

#[test]
fn detail_text_is_stored_and_window_reset() {
    let mut s = AppState::new(log_of(1), branches_of(&["main"]), "main".to_string());
    let lines: Vec<String> = (0..30).map(|i| format!("line {i}")).collect();
    s.set_selected_commit_details(lines);
    assert_eq!((s.commit_detail_viewport.start, s.commit_detail_viewport.end), (0, 0));
    s.update_commit_details_visible_range(8);
    assert_eq!((s.commit_detail_viewport.start, s.commit_detail_viewport.end), (0, 8));
    s.scroll_commit_details_down(3);
    assert_eq!((s.commit_detail_viewport.start, s.commit_detail_viewport.end), (3, 11));
    s.scroll_commit_details_down(100);
    assert_eq!((s.commit_detail_viewport.start, s.commit_detail_viewport.end), (22, 30));
    s.scroll_commit_details_up(5);
    assert_eq!((s.commit_detail_viewport.start, s.commit_detail_viewport.end), (17, 25));
    s.scroll_commit_details_up(100);
    assert_eq!((s.commit_detail_viewport.start, s.commit_detail_viewport.end), (0, 8));
    s.clear_selected_commit_details();
    assert!(s.selected_commit_details.is_none());
    assert_eq!((s.commit_detail_viewport.start, s.commit_detail_viewport.end), (0, 0));
}

#[test]
fn update_visible_range_pages_around_selection() {
    let mut s = AppState::new(log_of(45), branches_of(&["main"]), "main".to_string());
    s.set_visible_count(10);
    for _ in 0..17 {
        s.select_next();
    }
    assert_eq!(s.selected_index, 17);
    s.update_visible_range();
    assert_eq!((s.commit_log_viewport.start, s.commit_log_viewport.end), (10, 20));
}
