//! Greedy flow layout for label chips: chips are placed left to right,
//! separated by one column, and wrap to a fresh row when they do not fit.
//! A chip wider than the whole canvas overflows its own row; chips are
//! never split or truncated.

use vstd::prelude::*;

use crate::github::Label;

verus! {

/// Display width of a string on the terminal, in columns. A function of
/// the characters alone.
pub uninterp spec fn display_width(s: Seq<char>) -> nat;

/// Relies on unicode_width::UnicodeWidthStr::width: the total column width
/// of the string, determined by its characters alone.
#[verifier::external_body]
pub(crate) fn str_display_width(s: &str) -> (r: usize)
    ensures
        r == display_width(s@),
{
    unicode_width::UnicodeWidthStr::width(s)
}

/// A chip's text: the label name with one leading and one trailing space.
pub open spec fn padded_text(name: Seq<char>) -> Seq<char> {
    seq![' '] + name + seq![' ']
}

/// The width one label occupies as a chip.
pub open spec fn chip_width_of(name: Seq<char>) -> int {
    display_width(padded_text(name)) as int
}

/// Builds the padded chip text of a label.
pub fn label_chip_text(label: &Label) -> (r: String)
    ensures
        r@ == padded_text(label.name@),
{
    proof {
        reveal_strlit(" ");
        assert(" "@ =~= seq![' ']);
    }
    let padded = String::from_str(" ").concat(label.name.as_str()).concat(" ");
    proof {
        assert(padded@ =~= padded_text(label.name@));
    }
    padded
}

/// Measures the chip width of a label.
pub fn label_chip_width(label: &Label) -> (r: usize)
    ensures
        r as int == chip_width_of(label.name@),
{
    let text = label_chip_text(label);
    str_display_width(text.as_str())
}

/// Placement of one chip: its row, its starting column, and its width.
#[derive(Clone, Copy, Debug, PartialEq, Eq, Structural)]
pub struct ChipPlacement {
    pub row: usize,
    pub col: usize,
    pub width: usize,
}

/// The packer's cursor: the next free column on the current row.
pub ghost struct FlowCursor {
    pub col: int,
    pub row: int,
}

/// Position a chip was placed at.
pub ghost struct ChipPos {
    pub row: int,
    pub col: int,
}

/// Whether a chip of width `w` wraps to a new row: the cursor is past the
/// start of the row, and either the row is already full or the chip plus
/// its separating space does not fit in the remaining columns.
pub open spec fn flow_wraps(width: int, cu: FlowCursor, w: int) -> bool {
    cu.col > 0 && (cu.col >= width || w > width - cu.col - 1)
}

/// Column where a chip of width `w` lands.
pub open spec fn flow_chip_col(width: int, cu: FlowCursor, w: int) -> int {
    if flow_wraps(width, cu, w) {
        0
    } else if cu.col > 0 {
        cu.col + 1
    } else {
        0
    }
}

/// Row where a chip of width `w` lands.
pub open spec fn flow_chip_row(width: int, cu: FlowCursor, w: int) -> int {
    if flow_wraps(width, cu, w) {
        cu.row + 1
    } else {
        cu.row
    }
}

/// The cursor after placing a chip of width `w`.
pub open spec fn flow_step(width: int, cu: FlowCursor, w: int) -> FlowCursor {
    FlowCursor {
        col: flow_chip_col(width, cu, w) + w,
        row: flow_chip_row(width, cu, w),
    }
}

/// The cursor after laying out all of `ws` on a fresh canvas.
pub open spec fn flow_cursor(width: int, ws: Seq<int>) -> FlowCursor
    decreases ws.len(),
{
    if ws.len() == 0 {
        FlowCursor { col: 0, row: 0 }
    } else {
        flow_step(width, flow_cursor(width, ws.drop_last()), ws.last())
    }
}

/// The positions of all chips, in order.
pub open spec fn flow_positions(width: int, ws: Seq<int>) -> Seq<ChipPos>
    decreases ws.len(),
{
    if ws.len() == 0 {
        Seq::empty()
    } else {
        let cu = flow_cursor(width, ws.drop_last());
        flow_positions(width, ws.drop_last()).push(
            ChipPos {
                row: flow_chip_row(width, cu, ws.last()),
                col: flow_chip_col(width, cu, ws.last()),
            },
        )
    }
}

/// Height of the packed canvas: one more than the number of wraps.
pub open spec fn flow_height(width: int, ws: Seq<int>) -> int {
    flow_cursor(width, ws).row + 1
}

/// Chip widths as mathematical integers.
pub open spec fn widths_ints(ws: Seq<usize>) -> Seq<int> {
    ws.map_values(|w: usize| w as int)
}

/// There is one position per chip.
pub proof fn lemma_positions_len(width: int, ws: Seq<int>)
    ensures
        flow_positions(width, ws).len() == ws.len(),
    decreases ws.len(),
{
    if ws.len() > 0 {
        lemma_positions_len(width, ws.drop_last());
    }
}

/// Each chip's position is one greedy step from the cursor its prefix
/// left behind.
pub proof fn lemma_position_at(width: int, ws: Seq<int>, i: int)
    requires
        0 <= i < ws.len(),
    ensures
        flow_positions(width, ws).len() == ws.len(),
        flow_positions(width, ws)[i] == (ChipPos {
            row: flow_chip_row(width, flow_cursor(width, ws.take(i)), ws[i]),
            col: flow_chip_col(width, flow_cursor(width, ws.take(i)), ws[i]),
        }),
    decreases ws.len(),
{
    lemma_positions_len(width, ws);
    if i == ws.len() - 1 {
        assert(ws.take(i) =~= ws.drop_last());
    } else {
        lemma_position_at(width, ws.drop_last(), i);
        assert(ws.drop_last().take(i) =~= ws.take(i));
        assert(ws.drop_last()[i] == ws[i]);
    }
}

/// Every chip either fits on its row (its end stays within the canvas
/// width) or stands alone at column 0; a chip wider than the canvas is
/// always at column 0.
pub proof fn lemma_rows_fit(width: int, ws: Seq<int>)
    requires
        width >= 1,
    ensures
        forall|i: int|
            #![trigger flow_positions(width, ws)[i]]
            0 <= i < ws.len() ==> {
                let p = flow_positions(width, ws)[i];
                &&& p.col == 0 || p.col + ws[i] <= width
                &&& ws[i] > width ==> p.col == 0
            },
{
    assert forall|i: int|
        #![trigger flow_positions(width, ws)[i]]
        0 <= i < ws.len() implies {
        let p = flow_positions(width, ws)[i];
        &&& p.col == 0 || p.col + ws[i] <= width
        &&& ws[i] > width ==> p.col == 0
    } by {
        lemma_position_at(width, ws, i);
        let cu = flow_cursor(width, ws.take(i));
        if !flow_wraps(width, cu, ws[i]) && cu.col > 0 {
            assert(ws[i] <= width - cu.col - 1);
        }
    }
}

/// Appending a chip at fixed width never decreases the height.
pub proof fn lemma_height_monotonic(width: int, ws: Seq<int>, w: int)
    ensures
        flow_height(width, ws.push(w)) >= flow_height(width, ws),
{
    assert(ws.push(w).drop_last() =~= ws);
    assert(ws.push(w).last() == w);
}

/// The computed placements of a chip sequence plus the height the backing
/// canvas must be resized to before drawing.
#[derive(Clone, Debug, PartialEq, Eq)]
pub struct LabelLayout {
    pub placements: Vec<ChipPlacement>,
    pub height: usize,
}

/// Packs chips of the given widths into rows of at most `width` columns,
/// greedily and in order.
pub fn flow_layout(width: usize, chip_widths: &Vec<usize>) -> (r: LabelLayout)
    requires
        width >= 1,
    ensures
        r.placements@.len() == chip_widths@.len(),
        forall|i: int|
            0 <= i < chip_widths@.len() ==> {
                let p = flow_positions(width as int, widths_ints(chip_widths@))[i];
                &&& (#[trigger] r.placements@[i]).row == p.row
                &&& r.placements@[i].col == p.col
                &&& r.placements@[i].width == chip_widths@[i]
            },
        r.height as int == flow_height(width as int, widths_ints(chip_widths@)),
{
    let ghost ints: Seq<int> = widths_ints(chip_widths@);
    let n = chip_widths.len();
    let mut placements: Vec<ChipPlacement> = Vec::new();
    let mut col: usize = 0;
    let mut row: usize = 0;
    let mut idx: usize = 0;
    while idx < n
        invariant
            idx <= n,
            n == chip_widths@.len(),
            width >= 1,
            ints == widths_ints(chip_widths@),
            ints.len() == n,
            col as int == flow_cursor(width as int, ints.take(idx as int)).col,
            row as int == flow_cursor(width as int, ints.take(idx as int)).row,
            idx == 0 ==> row == 0,
            idx > 0 ==> row < idx,
            placements@.len() == idx,
            forall|i: int|
                0 <= i < idx ==> {
                    let p = flow_positions(width as int, ints.take(idx as int))[i];
                    &&& (#[trigger] placements@[i]).row == p.row
                    &&& placements@[i].col == p.col
                    &&& placements@[i].width == chip_widths@[i]
                },
        decreases n - idx,
    {
        proof {
            lemma_positions_len(width as int, ints.take(idx as int));
        }
        let w = chip_widths[idx];
        if col > 0 {
            if col >= width {
                row += 1;
                col = 0;
            } else if w > width - col - 1 {
                row += 1;
                col = 0;
            } else {
                col += 1;
            }
        }
        placements.push(ChipPlacement { row, col, width: w });
        col = col + w;
        idx += 1;
        proof {
            assert(ints.take(idx as int).drop_last() =~= ints.take(idx as int - 1));
            assert(ints.take(idx as int).last() == ints[idx as int - 1]);
            lemma_positions_len(width as int, ints.take(idx as int));
        }
    }
    proof {
        assert(ints.take(n as int) =~= ints);
    }
    LabelLayout { placements, height: row + 1 }
}

/// The chip widths of a label sequence, in order.
pub open spec fn label_widths(ls: Seq<Label>) -> Seq<int> {
    ls.map_values(|l: Label| chip_width_of(l.name@))
}

/// Measures every label and packs the chips into rows of at most `width`
/// columns.
pub fn layout_labels(width: usize, labels: &Vec<Label>) -> (r: LabelLayout)
    requires
        width >= 1,
    ensures
        r.placements@.len() == labels@.len(),
        forall|i: int|
            0 <= i < labels@.len() ==> {
                let p = flow_positions(width as int, label_widths(labels@))[i];
                &&& (#[trigger] r.placements@[i]).row == p.row
                &&& r.placements@[i].col == p.col
                &&& r.placements@[i].width == chip_width_of(labels@[i].name@)
            },
        r.height as int == flow_height(width as int, label_widths(labels@)),
{
    let n = labels.len();
    let mut widths: Vec<usize> = Vec::new();
    let mut i: usize = 0;
    while i < n
        invariant
            i <= n,
            n == labels@.len(),
            widths@.len() == i,
            forall|j: int| 0 <= j < i ==> (#[trigger] widths@[j]) as int == chip_width_of(
                labels@[j].name@,
            ),
        decreases n - i,
    {
        let w = label_chip_width(&labels[i]);
        widths.push(w);
        i += 1;
    }
    proof {
        assert(widths_ints(widths@) =~= label_widths(labels@));
    }
    flow_layout(width, &widths)
}

} // verus!
