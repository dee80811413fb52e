//! The declarative layout tree: render functions turn the reducer's state
//! into a closed set of node variants (text, border, canvas, rows and
//! columns, a selectable list) that the external display engine paints.
//! Nothing here touches the terminal.

use vstd::prelude::*;

use crate::colour::{is_light_colour, is_light_spec, Colour};
use crate::decimal::dec_rep;
use crate::decimal::u64_to_dec;
use crate::github::{labels_get, labels_len, labels_seq, Issue, IssueNumber, Label};
use crate::layout::{
    flow_height, flow_layout, flow_positions, label_chip_text, label_chip_width, label_widths,
};
use crate::reducer::Reducer;
use crate::store::{FutureValue, IssueStore};
use crate::theme::{AppTheme, IssueCardTheme, PipelineTheme, PromptTheme, Style};
use crate::view::PipelineView;
use crate::zenhub::{issue_refs_get, issue_refs_len, issue_refs_seq};

verus! {

/// Sizing of one child region in a row or column.
#[derive(Clone, Copy, Debug, PartialEq, Eq, Structural)]
pub enum FlexSize {
    Auto,
    Fixed(usize),
}

/// Title of a border: its text and its style.
#[derive(Clone, Debug, PartialEq, Eq)]
pub struct BorderTitle {
    pub text: String,
    pub style: Style,
}

/// One chip drawn on a label canvas.
#[derive(Clone, Debug, PartialEq, Eq)]
pub struct ChipCell {
    pub text: String,
    pub style: Style,
    pub row: usize,
    pub col: usize,
}

/// A node of the declarative layout tree the display engine paints.
pub enum LayoutNode {
    /// Styled text; `centred` aligns it, `wrap` word-wraps it.
    Text { content: String, style: Style, centred: bool, wrap: bool },
    /// A frame around one child, with an optional title.
    Border { style: Style, title: Option<BorderTitle>, child: Box<LayoutNode> },
    /// A character canvas holding packed label chips.
    Canvas { width: usize, height: usize, chips: Vec<ChipCell> },
    /// A vertical stack of sized regions.
    Column { children: Vec<FlexChild> },
    /// A horizontal sequence of sized regions.
    Row { children: Vec<FlexChild> },
    /// A selectable list of uniformly sized items.
    List { item_size: usize, selected: usize, items: Vec<LayoutNode> },
}

/// One sized child of a row or column.
pub struct FlexChild {
    pub size: FlexSize,
    pub node: LayoutNode,
}

/// Number of frames of the progress animation.
pub const PROGRESS_FRAMES: usize = 13;

/// The glyph of one frame of the progress animation: a block sweeping
/// from wide to narrow and back.
pub open spec fn progress_glyph_view(i: int) -> Seq<char> {
    if i == 0 {
        "▉"@
    } else if i == 1 {
        "▊"@
    } else if i == 2 {
        "▋"@
    } else if i == 3 {
        "▌"@
    } else if i == 4 {
        "▍"@
    } else if i == 5 {
        "▎"@
    } else if i == 6 {
        "▏"@
    } else if i == 7 {
        "▎"@
    } else if i == 8 {
        "▍"@
    } else if i == 9 {
        "▌"@
    } else if i == 10 {
        "▋"@
    } else if i == 11 {
        "▊"@
    } else {
        "▉"@
    }
}

/// The glyph of the animation frame `i` counts up to, wrapping around.
pub fn progress_glyph(i: usize) -> (r: &'static str)
    ensures
        r@ == progress_glyph_view(i as int % (PROGRESS_FRAMES as int)),
{
    let k = i % PROGRESS_FRAMES;
    if k == 0 {
        "▉"
    } else if k == 1 {
        "▊"
    } else if k == 2 {
        "▋"
    } else if k == 3 {
        "▌"
    } else if k == 4 {
        "▍"
    } else if k == 5 {
        "▎"
    } else if k == 6 {
        "▏"
    } else if k == 7 {
        "▎"
    } else if k == 8 {
        "▍"
    } else if k == 9 {
        "▌"
    } else if k == 10 {
        "▋"
    } else if k == 11 {
        "▊"
    } else {
        "▉"
    }
}

/// The content of the status cell: an animation frame while tasks are
/// pending, a check mark when idle.
pub open spec fn status_glyph_view(pending: bool, i: int) -> Seq<char> {
    if pending {
        progress_glyph_view(i % (PROGRESS_FRAMES as int))
    } else {
        "✓"@
    }
}

/// The one-cell status glyph.
pub fn render_status(style: Style, pending: bool, progress_index: usize) -> (r: LayoutNode)
    ensures
        r is Text,
        r->Text_content@ == status_glyph_view(pending, progress_index as int),
        r->Text_style == style,
        !r->Text_centred,
        !r->Text_wrap,
{
    let content = if pending {
        progress_glyph(progress_index).to_owned()
    } else {
        "✓".to_owned()
    };
    LayoutNode::Text { content, style, centred: false, wrap: false }
}

/// The prompt line: the status cell and an empty message area.
pub fn render_prompt(theme: &PromptTheme, pending: bool, progress_index: usize) -> (r: LayoutNode)
    ensures
        r is Row,
        r->Row_children@.len() == 2,
        ({
            let status = r->Row_children@[0];
            &&& status.size == FlexSize::Fixed(1)
            &&& status.node is Text
            &&& status.node->Text_content@ == status_glyph_view(pending, progress_index as int)
            &&& status.node->Text_style == if pending {
                theme.pending
            } else {
                theme.ready
            }
        }),
        ({
            let message = r->Row_children@[1];
            &&& message.size == FlexSize::Auto
            &&& message.node is Text
            &&& message.node->Text_content@ == ""@
            &&& message.node->Text_style == theme.text
        }),
{
    let status_style = if pending {
        theme.pending
    } else {
        theme.ready
    };
    let mut children: Vec<FlexChild> = Vec::new();
    children.push(
        FlexChild {
            size: FlexSize::Fixed(1),
            node: render_status(status_style, pending, progress_index),
        },
    );
    children.push(
        FlexChild {
            size: FlexSize::Auto,
            node: LayoutNode::Text {
                content: "".to_owned(),
                style: theme.text,
                centred: false,
                wrap: false,
            },
        },
    );
    LayoutNode::Row { children }
}

/// Title of an issue card: the issue number, marked when the issue is a
/// pull request.
pub open spec fn card_title_view(number: IssueNumber, is_pull_request: bool) -> Seq<char> {
    if is_pull_request {
        " #"@ + dec_rep(number.0 as int) + " ⎇  "@
    } else {
        " #"@ + dec_rep(number.0 as int) + " "@
    }
}

/// Builds the title text of an issue card.
pub fn card_title_text(number: IssueNumber, is_pull_request: bool) -> (r: String)
    ensures
        r@ == card_title_view(number, is_pull_request),
{
    let digits = u64_to_dec(number.0);
    let text = String::from_str(" #").concat(digits.as_str()).concat(
        if is_pull_request {
            " ⎇  "
        } else {
            " "
        },
    );
    proof {
        assert(text@ =~= card_title_view(number, is_pull_request));
    }
    text
}

/// The style of one label chip: the label colour as background, with
/// black text over light colours and white text over dark ones, in bold.
pub open spec fn chip_style_view(c: Colour) -> Style {
    Style {
        background: c,
        foreground: if is_light_spec(c) {
            Colour { red: 0, green: 0, blue: 0 }
        } else {
            Colour { red: 255, green: 255, blue: 255 }
        },
        bold: true,
    }
}

/// The style one label chip is drawn with.
pub fn chip_style(colour: &Colour) -> (r: Style)
    ensures
        r == chip_style_view(*colour),
{
    let foreground = if is_light_colour(colour) {
        Colour { red: 0, green: 0, blue: 0 }
    } else {
        Colour { red: 255, green: 255, blue: 255 }
    };
    Style { background: *colour, foreground, bold: true }
}

/// Packs the labels of an issue into chips: each chip's text is the
/// padded label name, its style follows the label colour, and its
/// position comes from the greedy flow layout at the given width. Also
/// returns the height the canvas needs.
pub fn layout_label_chips(width: usize, labels: &im::Vector<Label>) -> (r: (Vec<ChipCell>, usize))
    requires
        width >= 1,
    ensures
        r.0@.len() == labels_seq(*labels).len(),
        forall|i: int|
            0 <= i < labels_seq(*labels).len() ==> {
                let p = flow_positions(width as int, label_widths(labels_seq(*labels)))[i];
                let l = labels_seq(*labels)[i];
                &&& (#[trigger] r.0@[i]).row == p.row
                &&& r.0@[i].col == p.col
                &&& r.0@[i].text@ == crate::layout::padded_text(l.name@)
                &&& r.0@[i].style == chip_style_view(l.color)
            },
        r.1 as int == flow_height(width as int, label_widths(labels_seq(*labels))),
{
    let n = labels_len(labels);
    let mut widths: Vec<usize> = Vec::new();
    let mut texts: Vec<String> = Vec::new();
    let mut styles: Vec<Style> = Vec::new();
    let mut i: usize = 0;
    while i < n
        invariant
            i <= n,
            n == labels_seq(*labels).len(),
            widths@.len() == i,
            texts@.len() == i,
            styles@.len() == i,
            forall|j: int|
                0 <= j < i ==> (#[trigger] widths@[j]) as int == crate::layout::chip_width_of(
                    labels_seq(*labels)[j].name@,
                ),
            forall|j: int|
                0 <= j < i ==> (#[trigger] texts@[j])@ == crate::layout::padded_text(
                    labels_seq(*labels)[j].name@,
                ),
            forall|j: int|
                0 <= j < i ==> (#[trigger] styles@[j]) == chip_style_view(
                    labels_seq(*labels)[j].color,
                ),
        decreases n - i,
    {
        match labels_get(labels, i) {
            Some(label) => {
                widths.push(label_chip_width(label));
                texts.push(label_chip_text(label));
                styles.push(chip_style(&label.color));
            },
            None => {
                proof {
                    assert(false);
                }
            },
        }
        i += 1;
    }
    proof {
        assert(crate::layout::widths_ints(widths@) =~= label_widths(labels_seq(*labels)));
        crate::layout::lemma_positions_len(
            width as int,
            label_widths(labels_seq(*labels)),
        );
    }
    let packed = flow_layout(width, &widths);
    let mut chips: Vec<ChipCell> = Vec::new();
    let ghost all_texts = texts@;
    let mut remaining = texts;
    let mut k: usize = 0;
    while k < n
        invariant
            k <= n,
            n == labels_seq(*labels).len(),
            packed.placements@.len() == n,
            styles@.len() == n,
            all_texts.len() == n,
            remaining@ =~= all_texts.skip(k as int),
            forall|j: int|
                0 <= j < n ==> (#[trigger] all_texts[j])@ == crate::layout::padded_text(
                    labels_seq(*labels)[j].name@,
                ),
            forall|j: int|
                0 <= j < n ==> (#[trigger] styles@[j]) == chip_style_view(
                    labels_seq(*labels)[j].color,
                ),
            forall|j: int|
                0 <= j < n ==> {
                    let p = flow_positions(width as int, label_widths(labels_seq(*labels)))[j];
                    (#[trigger] packed.placements@[j]).row == p.row && packed.placements@[j].col
                        == p.col
                },
            chips@.len() == k,
            forall|j: int|
                0 <= j < k ==> {
                    let p = flow_positions(width as int, label_widths(labels_seq(*labels)))[j];
                    let l = labels_seq(*labels)[j];
                    &&& (#[trigger] chips@[j]).row == p.row
                    &&& chips@[j].col == p.col
                    &&& chips@[j].text@ == crate::layout::padded_text(l.name@)
                    &&& chips@[j].style == chip_style_view(l.color)
                },
        decreases n - k,
    {
        let text = remaining.remove(0);
        let placement = packed.placements[k];
        chips.push(ChipCell { text, style: styles[k], row: placement.row, col: placement.col });
        k += 1;
    }
    (chips, packed.height)
}

/// One issue card: a frame titled with the issue number around the card's
/// content; the content shows a loading notice, the failure text, or the
/// issue title over its packed label chips.
pub fn render_issue_card(
    theme: &IssueCardTheme,
    number: IssueNumber,
    value: &FutureValue<Issue>,
    focused: bool,
    width: usize,
) -> (r: LayoutNode)
    requires
        width >= 1,
    ensures
        r is Border,
        r->Border_style == if focused {
            theme.text
        } else {
            theme.border
        },
        r->Border_title matches Some(t) && t.style == theme.text && t.text@ == card_title_view(
            number,
            value matches FutureValue::Ready(issue) && issue.pull_request is Some,
        ),
        match *value {
            FutureValue::Pending => {
                let child = *r->Border_child;
                &&& child is Text
                &&& child->Text_content@ == "Loading issue..."@
                &&& child->Text_style == theme.number
            },
            FutureValue::Error(ref message) => {
                let child = *r->Border_child;
                &&& child is Text
                &&& child->Text_content@ == message@
                &&& child->Text_style == theme.number
            },
            FutureValue::Ready(ref issue) => {
                let child = *r->Border_child;
                &&& child is Column
                &&& child->Column_children@.len() == 2
                &&& ({
                    let title = child->Column_children@[0];
                    &&& title.size == FlexSize::Auto
                    &&& title.node is Text
                    &&& title.node->Text_content@ == issue.title@
                    &&& title.node->Text_style == theme.number
                    &&& title.node->Text_wrap
                })
                &&& ({
                    let ls = labels_seq(issue.labels);
                    let height = flow_height(width as int, label_widths(ls));
                    let canvas = child->Column_children@[1];
                    &&& (canvas.size matches FlexSize::Fixed(f) && f as int == (if height
                        < usize::MAX as int {
                        height + 1
                    } else {
                        height
                    }))
                    &&& canvas.node is Canvas
                    &&& canvas.node->Canvas_width == width
                    &&& canvas.node->Canvas_height as int == height
                    &&& canvas.node->Canvas_chips@.len() == ls.len()
                    &&& forall|i: int|
                        0 <= i < ls.len() ==> {
                            let p = flow_positions(width as int, label_widths(ls))[i];
                            &&& (#[trigger] canvas.node->Canvas_chips@[i]).row == p.row
                            &&& canvas.node->Canvas_chips@[i].col == p.col
                            &&& canvas.node->Canvas_chips@[i].text@ == crate::layout::padded_text(
                                ls[i].name@,
                            )
                            &&& canvas.node->Canvas_chips@[i].style == chip_style_view(ls[i].color)
                        }
                })
            },
        },
{
    let border_style = if focused {
        theme.text
    } else {
        theme.border
    };
    match value {
        FutureValue::Pending => {
            let title = BorderTitle { text: card_title_text(number, false), style: theme.text };
            LayoutNode::Border {
                style: border_style,
                title: Some(title),
                child: Box::new(
                    LayoutNode::Text {
                        content: "Loading issue...".to_owned(),
                        style: theme.number,
                        centred: false,
                        wrap: false,
                    },
                ),
            }
        },
        FutureValue::Error(message) => {
            let title = BorderTitle { text: card_title_text(number, false), style: theme.text };
            LayoutNode::Border {
                style: border_style,
                title: Some(title),
                child: Box::new(
                    LayoutNode::Text {
                        content: message.clone(),
                        style: theme.number,
                        centred: false,
                        wrap: false,
                    },
                ),
            }
        },
        FutureValue::Ready(issue) => {
            let is_pull_request = issue.pull_request.is_some();
            let title = BorderTitle {
                text: card_title_text(number, is_pull_request),
                style: theme.text,
            };
            let (chips, height) = layout_label_chips(width, &issue.labels);
            let mut children: Vec<FlexChild> = Vec::new();
            children.push(
                FlexChild {
                    size: FlexSize::Auto,
                    node: LayoutNode::Text {
                        content: issue.title.clone(),
                        style: theme.number,
                        centred: false,
                        wrap: true,
                    },
                },
            );
            let fixed = if height < usize::MAX {
                height + 1
            } else {
                height
            };
            children.push(
                FlexChild {
                    size: FlexSize::Fixed(fixed),
                    node: LayoutNode::Canvas { width, height, chips },
                },
            );
            LayoutNode::Border {
                style: border_style,
                title: Some(title),
                child: Box::new(LayoutNode::Column { children }),
            }
        },
    }
}

/// Subtitle of a pipeline: its issue count, or a note that it is empty.
pub open spec fn subtitle_view(count: int) -> Seq<char> {
    if count == 0 {
        "(empty)"@
    } else {
        "("@ + dec_rep(count) + " issues)"@
    }
}

/// Builds the subtitle text of a pipeline.
pub fn subtitle_text(count: usize) -> (r: String)
    ensures
        r@ == subtitle_view(count as int),
{
    if count == 0 {
        "(empty)".to_owned()
    } else {
        let digits = u64_to_dec(count as u64);
        let text = String::from_str("(").concat(digits.as_str()).concat(" issues)");
        proof {
            assert(text@ =~= subtitle_view(count as int));
        }
        text
    }
}

/// Whether the stored load state of issue `n` is a loaded pull request.
pub open spec fn stored_is_pull_request(
    issues: Map<u64, FutureValue<Issue>>,
    n: IssueNumber,
) -> bool {
    issues.contains_key(n.0) && (issues[n.0] matches FutureValue::Ready(issue)
        && issue.pull_request is Some)
}

/// One pipeline column: its name, its issue count, and the selectable
/// list of its issue cards. A card is highlighted exactly when the
/// pipeline is focused and the card is the selected issue.
pub fn render_pipeline(
    theme: &PipelineTheme,
    pv: &PipelineView,
    issues: &IssueStore,
    focused: bool,
    width: usize,
) -> (r: LayoutNode)
    requires
        width >= 1,
    ensures
        r is Column,
        r->Column_children@.len() == 3,
        ({
            let title = r->Column_children@[0];
            &&& title.size == FlexSize::Fixed(1)
            &&& title.node is Text
            &&& title.node->Text_content@ == pv.pipeline.name@
            &&& title.node->Text_style == theme.title
            &&& title.node->Text_centred
        }),
        ({
            let subtitle = r->Column_children@[1];
            &&& subtitle.size == FlexSize::Fixed(2)
            &&& subtitle.node is Text
            &&& subtitle.node->Text_content@ == subtitle_view(
                issue_refs_seq(pv.pipeline.issues).len() as int,
            )
            &&& subtitle.node->Text_style == theme.subtitle
            &&& subtitle.node->Text_centred
        }),
        ({
            let list = r->Column_children@[2];
            &&& list.size == FlexSize::Auto
            &&& list.node is List
            &&& list.node->List_item_size == 10
            &&& list.node->List_selected == pv.selected_issue
            &&& list.node->List_items@.len() == issue_refs_seq(pv.pipeline.issues).len()
            &&& forall|i: int|
                0 <= i < issue_refs_seq(pv.pipeline.issues).len() ==> {
                    let n = issue_refs_seq(pv.pipeline.issues)[i].number;
                    let item = #[trigger] list.node->List_items@[i];
                    &&& item is Border
                    &&& item->Border_style == if focused && i == pv.selected_issue {
                        theme.issue.text
                    } else {
                        theme.issue.border
                    }
                    &&& (item->Border_title matches Some(t) && t.text@ == card_title_view(
                        n,
                        stored_is_pull_request(issues@, n),
                    ))
                }
        }),
{
    let count = issue_refs_len(&pv.pipeline.issues);
    let mut items: Vec<LayoutNode> = Vec::new();
    let mut i: usize = 0;
    while i < count
        invariant
            i <= count,
            count == issue_refs_seq(pv.pipeline.issues).len(),
            width >= 1,
            items@.len() == i,
            forall|j: int|
                0 <= j < i ==> {
                    let n = issue_refs_seq(pv.pipeline.issues)[j].number;
                    let item = #[trigger] items@[j];
                    &&& item is Border
                    &&& item->Border_style == if focused && j == pv.selected_issue {
                        theme.issue.text
                    } else {
                        theme.issue.border
                    }
                    &&& (item->Border_title matches Some(t) && t.text@ == card_title_view(
                        n,
                        stored_is_pull_request(issues@, n),
                    ))
                },
        decreases count - i,
    {
        let focused_item = focused && i == pv.selected_issue;
        match issue_refs_get(&pv.pipeline.issues, i) {
            Some(ir) => {
                let number = ir.number;
                let card = match issues.get(number) {
                    Some(value) => render_issue_card(&theme.issue, number, value, focused_item, width),
                    None => {
                        let pending: FutureValue<Issue> = FutureValue::Pending;
                        render_issue_card(&theme.issue, number, &pending, focused_item, width)
                    },
                };
                items.push(card);
            },
            None => {
                proof {
                    assert(false);
                }
            },
        }
        i += 1;
    }
    let mut children: Vec<FlexChild> = Vec::new();
    children.push(
        FlexChild {
            size: FlexSize::Fixed(1),
            node: LayoutNode::Text {
                content: pv.pipeline.name.clone(),
                style: theme.title,
                centred: true,
                wrap: false,
            },
        },
    );
    children.push(
        FlexChild {
            size: FlexSize::Fixed(2),
            node: LayoutNode::Text {
                content: subtitle_text(count),
                style: theme.subtitle,
                centred: true,
                wrap: false,
            },
        },
    );
    children.push(
        FlexChild {
            size: FlexSize::Auto,
            node: LayoutNode::List { item_size: 10, selected: pv.selected_issue, items },
        },
    );
    LayoutNode::Column { children }
}

/// The indices of the visible pipelines, in order.
pub open spec fn visible_indices(s: Seq<PipelineView>) -> Seq<int>
    decreases s.len(),
{
    if s.len() == 0 {
        Seq::empty()
    } else if s.last().hidden {
        visible_indices(s.drop_last())
    } else {
        visible_indices(s.drop_last()).push(s.len() - 1)
    }
}

impl Reducer {
    /// The whole screen: a banner when the board itself failed to load,
    /// the visible pipelines side by side with one-column dividers
    /// between them, and the prompt line beneath. The focused pipeline is
    /// the selected one; hidden pipelines do not appear.
    pub fn render(&self, theme: &AppTheme, width: usize, progress_index: usize) -> (r: LayoutNode)
        requires
            width >= 1,
        ensures
            r is Column,
            ({
                let s = self.board.pipelines@;
                let vis = visible_indices(s);
                let kids = r->Column_children@;
                &&& kids.len() == (if self.board_error is Some {
                    3int
                } else {
                    2int
                })
                &&& (match self.board_error {
                    Some(ref message) => {
                        let banner = kids[0];
                        &&& banner.size == FlexSize::Fixed(1)
                        &&& banner.node is Text
                        &&& banner.node->Text_content@ == message@
                        &&& banner.node->Text_style == theme.prompt.text
                    },
                    None => true,
                })
                &&& ({
                    let pipelines_child = kids[kids.len() - 2];
                    &&& pipelines_child.size == FlexSize::Auto
                    &&& pipelines_child.node is Row
                    &&& pipelines_child.node->Row_children@.len() == (if vis.len() == 0 {
                        0int
                    } else {
                        2 * vis.len() - 1
                    })
                    &&& forall|j: int|
                        0 <= j < vis.len() ==> {
                            let child = #[trigger] pipelines_child.node->Row_children@[2 * j];
                            let idx = vis[j];
                            let ptheme = if idx == self.board.selected_pipeline as int {
                                theme.pipeline_focused
                            } else {
                                theme.pipeline_unfocused
                            };
                            &&& child.size == FlexSize::Auto
                            &&& child.node is Column
                            &&& child.node->Column_children@.len() == 3
                            &&& child.node->Column_children@[0].node is Text
                            &&& child.node->Column_children@[0].node->Text_content@ == s[idx].pipeline.name@
                            &&& child.node->Column_children@[0].node->Text_style == ptheme.title
                        }
                    &&& forall|j: int|
                        0 <= j < vis.len() - 1 ==> {
                            let divider = #[trigger] pipelines_child.node->Row_children@[2 * j + 1];
                            &&& divider.size == FlexSize::Fixed(1)
                            &&& divider.node is Text
                            &&& divider.node->Text_style == theme.divider
                        }
                })
                &&& ({
                    let prompt_child = kids[kids.len() - 1];
                    &&& prompt_child.size == FlexSize::Fixed(1)
                    &&& prompt_child.node is Row
                    &&& prompt_child.node->Row_children@.len() == 2
                    &&& prompt_child.node->Row_children@[0].node is Text
                    &&& prompt_child.node->Row_children@[0].node->Text_content@
                        == status_glyph_view(self.num_pending_tasks > 0, progress_index as int)
                })
            }),
    {
        let ghost s = self.board.pipelines@;
        let n = self.board.pipelines.len();
        let mut row_children: Vec<FlexChild> = Vec::new();
        let mut i: usize = 0;
        while i < n
            invariant
                i <= n,
                n == s.len(),
                s == self.board.pipelines@,
                width >= 1,
                ({
                    let vis = visible_indices(s.take(i as int));
                    &&& row_children@.len() == (if vis.len() == 0 {
                        0int
                    } else {
                        2 * vis.len() - 1
                    })
                    &&& forall|j: int|
                        0 <= j < vis.len() ==> {
                            let child = #[trigger] row_children@[2 * j];
                            let idx = vis[j];
                            let ptheme = if idx == self.board.selected_pipeline as int {
                                theme.pipeline_focused
                            } else {
                                theme.pipeline_unfocused
                            };
                            &&& child.size == FlexSize::Auto
                            &&& child.node is Column
                            &&& child.node->Column_children@.len() == 3
                            &&& child.node->Column_children@[0].node is Text
                            &&& child.node->Column_children@[0].node->Text_content@ == s[idx].pipeline.name@
                            &&& child.node->Column_children@[0].node->Text_style == ptheme.title
                        }
                    &&& forall|j: int|
                        0 <= j < vis.len() - 1 ==> {
                            let divider = #[trigger] row_children@[2 * j + 1];
                            &&& divider.size == FlexSize::Fixed(1)
                            &&& divider.node is Text
                            &&& divider.node->Text_style == theme.divider
                        }
                }),
            decreases n - i,
        {
            proof {
                assert(s.take(i as int + 1).drop_last() =~= s.take(i as int));
                assert(s.take(i as int + 1).last() == s[i as int]);
            }
            let pv = &self.board.pipelines[i];
            if !pv.hidden {
                if row_children.len() > 0 {
                    row_children.push(
                        FlexChild {
                            size: FlexSize::Fixed(1),
                            node: LayoutNode::Text {
                                content: "".to_owned(),
                                style: theme.divider,
                                centred: false,
                                wrap: false,
                            },
                        },
                    );
                }
                let focused = i == self.board.selected_pipeline;
                let ptheme = if focused {
                    &theme.pipeline_focused
                } else {
                    &theme.pipeline_unfocused
                };
                let node = render_pipeline(ptheme, pv, &self.issues, focused, width);
                row_children.push(FlexChild { size: FlexSize::Auto, node });
            }
            i += 1;
        }
        proof {
            assert(s.take(n as int) =~= s);
        }
        let mut kids: Vec<FlexChild> = Vec::new();
        match &self.board_error {
            Some(message) => {
                kids.push(
                    FlexChild {
                        size: FlexSize::Fixed(1),
                        node: LayoutNode::Text {
                            content: message.clone(),
                            style: theme.prompt.text,
                            centred: false,
                            wrap: false,
                        },
                    },
                );
            },
            None => {},
        }
        kids.push(FlexChild { size: FlexSize::Auto, node: LayoutNode::Row { children: row_children } });
        kids.push(
            FlexChild {
                size: FlexSize::Fixed(1),
                node: render_prompt(&theme.prompt, self.num_pending_tasks > 0, progress_index),
            },
        );
        LayoutNode::Column { children: kids }
    }
}

} // verus!
