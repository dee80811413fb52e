//! Navigation, reducer and store behaviour on concrete boards.

use zentui::github::{Issue, IssueNumber, IssueState};
use zentui::input::{BindingTransition, InputAction, Key};
use zentui::reducer::{Message, Reducer};
use zentui::store::{FutureValue, IssueStore};
use zentui::view::BoardView;
use zentui::zenhub::{Board, IssueRef, Pipeline};

fn issue_ref(n: u64) -> IssueRef {
    IssueRef { number: IssueNumber(n), is_epic: false }
}

fn pipeline(name: &str, numbers: &[u64]) -> Pipeline {
    Pipeline::new(
        name.to_lowercase(),
        name.to_owned(),
        numbers.iter().map(|n| issue_ref(*n)).collect(),
    )
}

fn two_pipeline_board() -> Board {
    Board { pipelines: vec![pipeline("A", &[1, 2]), pipeline("B", &[])] }
}

fn plain_issue(n: u64) -> Issue {
    Issue::new(
        IssueNumber(n),
        format!("issue {}", n),
        "body".to_owned(),
        IssueState::Open,
        Vec::new(),
        None,
    )
}

fn selected_is_visible_or_zero(board: &BoardView) -> bool {
    let any_visible = board.pipelines.iter().any(|p| !p.hidden);
    if any_visible {
        board.selected_pipeline < board.pipelines.len()
            && !board.pipelines[board.selected_pipeline].hidden
    } else {
        board.selected_pipeline == 0
    }
}

#[test]
fn selection_stays_visible_through_hide_and_show() {
    let board = Board {
        pipelines: vec![
            pipeline("A", &[1]),
            pipeline("B", &[2, 3]),
            pipeline("C", &[]),
            pipeline("D", &[4]),
        ],
    };
    let mut view = BoardView::from_board(board);
    assert!(selected_is_visible_or_zero(&view));
    let steps: &[usize] = &[1, 0, 3, 2];
    for &i in steps {
        view.hide_pipeline(i);
        assert!(selected_is_visible_or_zero(&view), "after hiding {}", i);
    }
    // Everything is hidden now: the selection falls back to index 0.
    assert_eq!(view.selected_pipeline, 0);
    view.show_all_pipelines();
    assert!(selected_is_visible_or_zero(&view));
}

#[test]
fn select_issue_clamps_to_issue_count() {
    let mut view = BoardView::from_board(Board { pipelines: vec![pipeline("A", &[1, 2, 3])] });
    view.select_issue(7);
    assert_eq!(view.pipelines[0].selected_issue, 2);
    view.select_issue(1);
    assert_eq!(view.pipelines[0].selected_issue, 1);
    let mut empty = BoardView::from_board(Board { pipelines: vec![pipeline("A", &[])] });
    empty.select_issue(5);
    assert_eq!(empty.pipelines[0].selected_issue, 0);
}

#[test]
fn previous_at_start_stays_and_hiding_first_moves_to_empty_neighbour() {
    let mut view = BoardView::from_board(two_pipeline_board());
    assert_eq!(view.selected_pipeline, 0);
    view.select_previous_pipeline();
    assert_eq!(view.selected_pipeline, 0);
    view.hide_pipeline(0);
    assert_eq!(view.selected_pipeline, 1);
}

#[test]
fn navigation_skips_hidden_pipelines() {
    let board = Board {
        pipelines: vec![pipeline("A", &[1]), pipeline("B", &[2]), pipeline("C", &[3])],
    };
    let mut view = BoardView::from_board(board);
    view.hide_pipeline(1);
    assert_eq!(view.selected_pipeline, 0);
    view.select_next_pipeline();
    assert_eq!(view.selected_pipeline, 2);
    view.select_previous_pipeline();
    assert_eq!(view.selected_pipeline, 0);
    view.select_next_pipeline();
    view.select_next_pipeline();
    // Clamped at the last visible pipeline, no wraparound.
    assert_eq!(view.selected_pipeline, 2);
}

#[test]
fn empty_board_navigation_is_inert() {
    let mut view = BoardView::new();
    view.select_next_pipeline();
    view.select_previous_pipeline();
    view.hide_pipeline(3);
    view.select_issue(2);
    assert_eq!(view.selected_pipeline, 0);
    assert!(view.pipelines.is_empty());
}

#[test]
fn select_issue_message_reaches_the_selected_pipeline() {
    let mut reducer = Reducer::new();
    reducer.update(Message::LoadedBoard(Ok(two_pipeline_board())));
    reducer.update(Message::SelectIssue(9));
    assert_eq!(reducer.board.pipelines[0].selected_issue, 1);
    reducer.update(Message::SelectIssue(0));
    assert_eq!(reducer.board.pipelines[0].selected_issue, 0);
}

#[test]
fn unbound_keys_clear_without_action() {
    let reducer = Reducer::new();
    for keys in [vec![Key::F(3)], vec![Key::Alt('x')], vec![Key::Esc], vec![
        Key::Char('a'),
        Key::Char('b'),
        Key::Char('c'),
    ]] {
        let m = reducer.input_binding(&keys);
        assert_eq!(m.transition, BindingTransition::Clear);
        assert_eq!(m.action, None);
    }
}

#[test]
fn last_write_wins_in_issue_store() {
    let mut store = IssueStore::new();
    store.set(IssueNumber(5), FutureValue::Ready(plain_issue(5)));
    store.set(IssueNumber(5), FutureValue::Error("boom".to_owned()));
    match store.get(IssueNumber(5)) {
        Some(FutureValue::Error(message)) => assert_eq!(message, "boom"),
        other => panic!("unexpected store entry: {:?}", other),
    }
}

#[test]
fn loaded_then_failed_issue_leaves_error() {
    let mut reducer = Reducer::new();
    reducer.update(Message::LoadedBoard(Ok(two_pipeline_board())));
    reducer.update(Message::LoadedIssue(IssueNumber(1), Ok(plain_issue(1))));
    reducer.update(Message::LoadedIssue(IssueNumber(1), Err("net down".to_owned())));
    match reducer.issues.get(IssueNumber(1)) {
        Some(FutureValue::Error(message)) => assert_eq!(message, "net down"),
        other => panic!("unexpected store entry: {:?}", other),
    }
}

#[test]
fn board_load_fans_out_first_seven_issues_per_pipeline() {
    let mut reducer = Reducer::new();
    assert_eq!(reducer.num_pending_tasks, 1);
    let board = Board {
        pipelines: vec![
            pipeline("A", &[1, 2, 3, 4, 5, 6, 7, 8, 9]),
            pipeline("B", &[10]),
            pipeline("C", &[]),
        ],
    };
    let fetches = reducer.update(Message::LoadedBoard(Ok(board)));
    let numbers: Vec<u64> = fetches.iter().map(|n| n.0).collect();
    assert_eq!(numbers, vec![1, 2, 3, 4, 5, 6, 7, 10]);
    // One board completion arrived, eight issue fetches were dispatched.
    assert_eq!(reducer.num_pending_tasks, 8);
}

#[test]
fn counter_is_paired_and_stops_at_zero() {
    let mut reducer = Reducer::new();
    let fetches = reducer.update(Message::LoadedBoard(Ok(two_pipeline_board())));
    assert_eq!(fetches.len(), 2);
    assert_eq!(reducer.num_pending_tasks, 2);
    for number in fetches {
        reducer.update(Message::LoadedIssue(number, Ok(plain_issue(number.0))));
    }
    assert_eq!(reducer.num_pending_tasks, 0);
    // An unpaired completion must not underflow the counter.
    reducer.update(Message::LoadedIssue(IssueNumber(99), Err("late".to_owned())));
    assert_eq!(reducer.num_pending_tasks, 0);
}

#[test]
fn edits_leave_the_counter_untouched() {
    let mut reducer = Reducer::new();
    reducer.update(Message::LoadedBoard(Ok(two_pipeline_board())));
    let before = reducer.num_pending_tasks;
    reducer.update(Message::EditIssue(IssueNumber(1), Ok(plain_issue(1))));
    assert_eq!(reducer.num_pending_tasks, before);
    match reducer.issues.get(IssueNumber(1)) {
        Some(FutureValue::Ready(issue)) => assert_eq!(issue.title, "issue 1"),
        other => panic!("unexpected store entry: {:?}", other),
    }
}

#[test]
fn failed_board_load_degrades_to_empty_board_with_banner() {
    let mut reducer = Reducer::new();
    let fetches = reducer.update(Message::LoadedBoard(Err("401 unauthorized".to_owned())));
    assert!(fetches.is_empty());
    assert_eq!(reducer.num_pending_tasks, 0);
    assert_eq!(reducer.board.pipelines.len(), 0);
    assert_eq!(reducer.board_error.as_deref(), Some("401 unauthorized"));
}

#[test]
fn navigation_keys_map_to_pipeline_messages() {
    let reducer = Reducer::new();
    for key in [Key::Ctrl('f'), Key::Right, Key::Char('l')] {
        let m = reducer.input_binding(&vec![key]);
        assert_eq!(m.transition, BindingTransition::Clear);
        assert_eq!(m.action, Some(InputAction::Dispatch(Message::NextPipeline)));
    }
    for key in [Key::Ctrl('b'), Key::Left, Key::Char('h')] {
        let m = reducer.input_binding(&vec![key]);
        assert_eq!(m.transition, BindingTransition::Clear);
        assert_eq!(m.action, Some(InputAction::Dispatch(Message::PreviousPipeline)));
    }
}

#[test]
fn leader_chords_continue_then_resolve() {
    let reducer = Reducer::new();
    let pending = reducer.input_binding(&vec![Key::Ctrl('x')]);
    assert_eq!(pending.transition, BindingTransition::Continue);
    assert_eq!(pending.action, None);
    let show = reducer.input_binding(&vec![Key::Ctrl('x'), Key::Ctrl('h')]);
    assert_eq!(show.transition, BindingTransition::Clear);
    assert_eq!(show.action, Some(InputAction::Dispatch(Message::ShowAllPipelines)));
    let quit = reducer.input_binding(&vec![Key::Ctrl('x'), Key::Ctrl('c')]);
    assert_eq!(quit.transition, BindingTransition::Clear);
    assert_eq!(quit.action, Some(InputAction::Exit));
    let unmatched = reducer.input_binding(&vec![Key::Char('z')]);
    assert_eq!(unmatched.transition, BindingTransition::Clear);
    assert_eq!(unmatched.action, None);
}

#[test]
fn enter_edits_only_a_loaded_issue() {
    let mut reducer = Reducer::new();
    reducer.update(Message::LoadedBoard(Ok(two_pipeline_board())));
    // Issue 1 is still pending: Enter does nothing.
    let before = reducer.input_binding(&vec![Key::Char('\n')]);
    assert_eq!(before.action, None);
    reducer.update(Message::LoadedIssue(IssueNumber(1), Ok(plain_issue(1))));
    let after = reducer.input_binding(&vec![Key::Char('\n')]);
    assert_eq!(after.action, Some(InputAction::EditIssue(IssueNumber(1))));
    let hide = reducer.input_binding(&vec![Key::Ctrl('h')]);
    assert_eq!(hide.action, Some(InputAction::Dispatch(Message::HidePipeline(0))));
}
