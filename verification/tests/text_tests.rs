//! Decimal formatting, request paths, editor text handling, and the
//! rendered tree's text content.

use zentui::colour::Colour;
use zentui::decimal::u64_to_dec;
use zentui::edit::{apply_edited_text, compose_edit_text, split_edited_text};
use zentui::github::{
    issue_path, repo_path, Issue, IssueNumber, IssueState, Label, RepoFullName, RepoId,
};
use zentui::reducer::{Message, Reducer};
use zentui::render::{render_issue_card, render_prompt, subtitle_text, FlexSize, LayoutNode};
use zentui::store::FutureValue;
use zentui::theme::{icy, AppTheme, IssueCardTheme};
use zentui::zenhub;

#[test]
fn decimal_formatting_is_plain_base_ten() {
    assert_eq!(u64_to_dec(0), "0");
    assert_eq!(u64_to_dec(7), "7");
    assert_eq!(u64_to_dec(1234567890), "1234567890");
    assert_eq!(u64_to_dec(u64::MAX), "18446744073709551615");
}

#[test]
fn request_paths_spell_out_repo_and_issue() {
    let repo = RepoFullName("octo/zentui".to_owned());
    assert_eq!(repo_path(&repo), "/repos/octo/zentui");
    assert_eq!(issue_path(&repo, IssueNumber(42)), "/repos/octo/zentui/issues/42");
    assert_eq!(zenhub::board_path(RepoId(7)), "/p1/repositories/7/board");
    assert_eq!(
        zenhub::issue_path(RepoId(7), IssueNumber(42)),
        "/p1/repositories/7/issues/42"
    );
}

#[test]
fn editor_text_composes_and_splits_back() {
    let text = compose_edit_text("A title", "Some body\nwith lines");
    assert_eq!(text, "A title\n\nSome body\nwith lines");
    let (title, body) = split_edited_text(&text);
    assert_eq!(title, "A title");
    assert_eq!(body, "Some body\nwith lines");
}

#[test]
fn editor_text_split_edge_shapes() {
    assert_eq!(split_edited_text("only a title"), ("only a title".to_owned(), "".to_owned()));
    assert_eq!(split_edited_text("t\nbody"), ("t".to_owned(), "body".to_owned()));
    assert_eq!(split_edited_text("t\n\n\nb"), ("t".to_owned(), "\nb".to_owned()));
    assert_eq!(split_edited_text(""), ("".to_owned(), "".to_owned()));
}

#[test]
fn applying_an_edit_rewrites_title_and_body_only() {
    let issue = Issue::new(
        IssueNumber(3),
        "old title".to_owned(),
        "old body".to_owned(),
        IssueState::Open,
        Vec::new(),
        None,
    );
    let edited = apply_edited_text(issue, "new title\n\nnew body");
    assert_eq!(edited.number, IssueNumber(3));
    assert_eq!(edited.title, "new title");
    assert_eq!(edited.body, "new body");
    assert_eq!(edited.state, IssueState::Open);
}

#[test]
fn subtitle_counts_issues() {
    assert_eq!(subtitle_text(0), "(empty)");
    assert_eq!(subtitle_text(1), "(1 issues)");
    assert_eq!(subtitle_text(12), "(12 issues)");
}

#[test]
fn issue_card_titles_mark_pull_requests() {
    let theme = IssueCardTheme::from_base16(&icy());
    let pending: FutureValue<Issue> = FutureValue::Pending;
    let card = render_issue_card(&theme, IssueNumber(12), &pending, false, 20);
    match card {
        LayoutNode::Border { title: Some(t), child, .. } => {
            assert_eq!(t.text, " #12 ");
            match *child {
                LayoutNode::Text { ref content, .. } => assert_eq!(content, "Loading issue..."),
                _ => panic!("pending card should hold a text child"),
            }
        },
        _ => panic!("card should be a border"),
    }
    let pr = Issue::new(
        IssueNumber(12),
        "t".to_owned(),
        "b".to_owned(),
        IssueState::Open,
        Vec::new(),
        Some(zentui::github::PullRequestRefs {}),
    );
    let card = render_issue_card(&theme, IssueNumber(12), &FutureValue::Ready(pr), false, 20);
    match card {
        LayoutNode::Border { title: Some(t), .. } => assert_eq!(t.text, " #12 ⎇  "),
        _ => panic!("card should be a border"),
    }
}

#[test]
fn ready_card_packs_its_label_chips() {
    let theme = IssueCardTheme::from_base16(&icy());
    let labels = vec![
        Label { name: "bug".to_owned(), color: Colour { red: 255, green: 0, blue: 0 } },
        Label { name: "help wanted".to_owned(), color: Colour { red: 0, green: 128, blue: 0 } },
        Label { name: "P1".to_owned(), color: Colour { red: 255, green: 255, blue: 255 } },
    ];
    let issue = Issue::new(
        IssueNumber(8),
        "a title".to_owned(),
        "a body".to_owned(),
        IssueState::Open,
        labels,
        None,
    );
    let card = render_issue_card(&theme, IssueNumber(8), &FutureValue::Ready(issue), false, 20);
    let child = match card {
        LayoutNode::Border { child, .. } => *child,
        _ => panic!("card should be a border"),
    };
    let parts = match child {
        LayoutNode::Column { children } => children,
        _ => panic!("ready card should hold a column"),
    };
    match &parts[1].node {
        LayoutNode::Canvas { width, height, chips } => {
            assert_eq!(*width, 20);
            // " bug " and " help wanted " share row 0 (5 + 1 + 13 = 19);
            // " P1 " wraps to row 1.
            assert_eq!(*height, 2);
            let positions: Vec<(usize, usize)> = chips.iter().map(|c| (c.row, c.col)).collect();
            assert_eq!(positions, vec![(0, 0), (0, 6), (1, 0)]);
            assert_eq!(chips[0].text, " bug ");
            // White background gets black text, dark backgrounds white.
            assert_eq!(chips[2].style.foreground, Colour { red: 0, green: 0, blue: 0 });
            assert_eq!(chips[0].style.foreground, Colour { red: 255, green: 255, blue: 255 });
        }
        _ => panic!("second column child should be the label canvas"),
    }
    assert_eq!(parts[1].size, FlexSize::Fixed(3));
}

#[test]
fn prompt_shows_check_mark_when_idle() {
    let theme = icy();
    let prompt = render_prompt(&zentui::theme::PromptTheme::from_base16(&theme), false, 0);
    match prompt {
        LayoutNode::Row { children } => {
            assert_eq!(children.len(), 2);
            assert_eq!(children[0].size, FlexSize::Fixed(1));
            match &children[0].node {
                LayoutNode::Text { content, .. } => assert_eq!(content, "✓"),
                _ => panic!("status cell should be text"),
            }
        },
        _ => panic!("prompt should be a row"),
    }
}

#[test]
fn render_shows_only_visible_pipelines_with_dividers() {
    let theme = AppTheme::from_base16(&icy());
    let mut reducer = Reducer::new();
    let board = zenhub::Board {
        pipelines: vec![
            zenhub::Pipeline::new("a".to_owned(), "Alpha".to_owned(), vec![]),
            zenhub::Pipeline::new("b".to_owned(), "Beta".to_owned(), vec![]),
            zenhub::Pipeline::new("c".to_owned(), "Gamma".to_owned(), vec![]),
        ],
    };
    reducer.update(Message::LoadedBoard(Ok(board)));
    reducer.update(Message::HidePipeline(1));
    let tree = reducer.render(&theme, 80, 0);
    match tree {
        LayoutNode::Column { children } => {
            assert_eq!(children.len(), 2);
            match &children[0].node {
                LayoutNode::Row { children: row } => {
                    // Two visible pipelines and one divider between them.
                    assert_eq!(row.len(), 3);
                    let names: Vec<String> = [0usize, 2]
                        .iter()
                        .map(|&i| match &row[i].node {
                            LayoutNode::Column { children: parts } => match &parts[0].node {
                                LayoutNode::Text { content, .. } => content.clone(),
                                _ => panic!("pipeline title should be text"),
                            },
                            _ => panic!("pipeline should be a column"),
                        })
                        .collect();
                    assert_eq!(names, vec!["Alpha".to_owned(), "Gamma".to_owned()]);
                },
                _ => panic!("pipelines region should be a row"),
            }
        },
        _ => panic!("screen should be a column"),
    }
}

#[test]
fn render_banner_appears_after_board_failure() {
    let theme = AppTheme::from_base16(&icy());
    let mut reducer = Reducer::new();
    reducer.update(Message::LoadedBoard(Err("service said no".to_owned())));
    let tree = reducer.render(&theme, 80, 0);
    match tree {
        LayoutNode::Column { children } => {
            assert_eq!(children.len(), 3);
            match &children[0].node {
                LayoutNode::Text { content, .. } => assert_eq!(content, "service said no"),
                _ => panic!("banner should be text"),
            }
        },
        _ => panic!("screen should be a column"),
    }
}
