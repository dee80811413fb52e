//! Selection and visibility state over the board: which pipeline is
//! selected, which are hidden, and which issue each pipeline points at.
//!
//! The governing invariant: whenever any pipeline is visible, the selected
//! index is a visible one; when none is visible (or the board is empty) the
//! selection falls back to index 0.

use vstd::prelude::*;

use crate::zenhub::{issue_refs_len, issue_refs_seq, Board, Pipeline};

verus! {

/// A pipeline together with its per-view state.
#[derive(Debug, PartialEq)]
pub struct PipelineView {
    pub pipeline: Pipeline,
    pub hidden: bool,
    pub selected_issue: usize,
}

impl PipelineView {
    /// Number of issues the underlying pipeline references.
    pub open spec fn issue_len(self) -> nat {
        issue_refs_seq(self.pipeline.issues).len()
    }

    /// The issue selection stays inside the issue list, or at 0 when the
    /// list is empty.
    pub open spec fn wf(self) -> bool {
        if self.issue_len() == 0 {
            self.selected_issue == 0
        } else {
            self.selected_issue < self.issue_len()
        }
    }

    /// Wraps a freshly loaded pipeline: visible, first issue selected.
    pub fn from_pipeline(pipeline: Pipeline) -> (r: PipelineView)
        ensures
            r.pipeline == pipeline,
            !r.hidden,
            r.selected_issue == 0,
            r.wf(),
    {
        PipelineView { pipeline, hidden: false, selected_issue: 0 }
    }

    /// The issue index that selecting `issue_index` lands on: the index
    /// itself when in range, the last issue otherwise, and 0 on an empty
    /// pipeline.
    pub open spec fn clamped_issue(self, issue_index: usize) -> int {
        if self.issue_len() == 0 {
            0
        } else if issue_index < self.issue_len() - 1 {
            issue_index as int
        } else {
            self.issue_len() - 1
        }
    }

    /// Selects an issue, clamped to `min(issue_index, len - 1)` on a
    /// non-empty pipeline and to 0 on an empty one.
    pub fn select_issue(&mut self, issue_index: usize)
        ensures
            final(self).pipeline == old(self).pipeline,
            final(self).hidden == old(self).hidden,
            final(self).selected_issue == old(self).clamped_issue(issue_index),
            final(self).wf(),
    {
        let len = issue_refs_len(&self.pipeline.issues);
        let max: usize = if len == 0 { 0 } else { len - 1 };
        self.selected_issue = if issue_index < max { issue_index } else { max };
    }
}

/// Whether index `i` names a visible pipeline of `s`.
pub open spec fn visible_at(s: Seq<PipelineView>, i: int) -> bool {
    0 <= i < s.len() && !s[i].hidden
}

/// Whether any pipeline of `s` is visible.
pub open spec fn any_visible(s: Seq<PipelineView>) -> bool {
    exists|i: int| visible_at(s, i)
}

/// `nsel` is the first visible index after `cur`, or `cur` itself when no
/// visible pipeline follows.
pub open spec fn steps_to_next_visible(s: Seq<PipelineView>, cur: int, nsel: int) -> bool {
    if exists|j: int| cur < j < s.len() && !(#[trigger] s[j]).hidden {
        &&& cur < nsel < s.len()
        &&& !s[nsel].hidden
        &&& forall|j: int| cur < j < nsel ==> (#[trigger] s[j]).hidden
    } else {
        nsel == cur
    }
}

/// `nsel` is the last visible index before `cur`, or `cur` itself when no
/// visible pipeline precedes.
pub open spec fn steps_to_previous_visible(s: Seq<PipelineView>, cur: int, nsel: int) -> bool {
    if exists|j: int| 0 <= j < cur && !(#[trigger] s[j]).hidden {
        &&& 0 <= nsel < cur
        &&& !s[nsel].hidden
        &&& forall|j: int| nsel < j < cur ==> (#[trigger] s[j]).hidden
    } else {
        nsel == cur
    }
}

/// The pipeline view with its hidden flag set.
pub open spec fn hidden_pv(pv: PipelineView) -> PipelineView {
    PipelineView { pipeline: pv.pipeline, hidden: true, selected_issue: pv.selected_issue }
}

/// The pipeline view with its hidden flag cleared.
pub open spec fn shown_pv(pv: PipelineView) -> PipelineView {
    PipelineView { pipeline: pv.pipeline, hidden: false, selected_issue: pv.selected_issue }
}

/// Where the selection lands after hiding, scanning over `s` (the sequence
/// with the flag already set): stay when still visible, else the nearest
/// visible backward, else forward, else index 0.
pub open spec fn hide_selection(s: Seq<PipelineView>, cur: int, nsel: int) -> bool {
    if visible_at(s, cur) {
        nsel == cur
    } else if exists|j: int| 0 <= j < cur && !(#[trigger] s[j]).hidden {
        &&& 0 <= nsel < cur
        &&& !s[nsel].hidden
        &&& forall|j: int| nsel < j < cur ==> (#[trigger] s[j]).hidden
    } else if exists|j: int| cur < j < s.len() && !(#[trigger] s[j]).hidden {
        &&& cur < nsel < s.len()
        &&& !s[nsel].hidden
        &&& forall|j: int| cur < j < nsel ==> (#[trigger] s[j]).hidden
    } else {
        nsel == 0
    }
}

/// Two sequences with the same hidden flags have the same visible indices,
/// so a selection valid for one is valid for the other.
proof fn lemma_same_hidden_selection(s1: Seq<PipelineView>, s2: Seq<PipelineView>, sel: int)
    requires
        s1.len() == s2.len(),
        forall|j: int| 0 <= j < s1.len() ==> (#[trigger] s1[j]).hidden == s2[j].hidden,
        if any_visible(s1) {
            visible_at(s1, sel)
        } else {
            sel == 0
        },
    ensures
        if any_visible(s2) {
            visible_at(s2, sel)
        } else {
            sel == 0
        },
{
    if any_visible(s2) {
        let i = choose|i: int| visible_at(s2, i);
        assert(visible_at(s1, i));
        assert(visible_at(s2, sel));
    } else {
        if any_visible(s1) {
            let i = choose|i: int| visible_at(s1, i);
            assert(visible_at(s2, i));
        }
    }
}

/// The ordered pipelines of the board with the pipeline selection.
#[derive(Debug, PartialEq)]
pub struct BoardView {
    pub pipelines: Vec<PipelineView>,
    pub selected_pipeline: usize,
}

impl BoardView {
    /// The selection index is inside the pipeline list, or 0 when the list
    /// is empty.
    pub open spec fn sel_in_bounds(self) -> bool {
        if self.pipelines@.len() == 0 {
            self.selected_pipeline == 0
        } else {
            self.selected_pipeline < self.pipelines@.len()
        }
    }
    /// The selection invariant: a visible pipeline is selected whenever one
    /// exists; otherwise the selection is 0.
    pub open spec fn selection_ok(self) -> bool {
        if any_visible(self.pipelines@) {
            visible_at(self.pipelines@, self.selected_pipeline as int)
        } else {
            self.selected_pipeline == 0
        }
    }

    /// Well-formed: the selection invariant, and every per-pipeline issue
    /// selection in range.
    pub open spec fn wf(self) -> bool {
        &&& self.selection_ok()
        &&& forall|i: int|
            0 <= i < self.pipelines@.len() ==> (#[trigger] self.pipelines@[i]).wf()
    }

    /// An empty board: no pipelines, selection at 0.
    pub fn new() -> (r: BoardView)
        ensures
            r.pipelines@.len() == 0,
            r.selected_pipeline == 0,
            r.wf(),
    {
        BoardView { pipelines: Vec::new(), selected_pipeline: 0 }
    }

    /// Wraps a freshly loaded board: every pipeline visible with its first
    /// issue selected, and the first pipeline selected.
    pub fn from_board(board: Board) -> (r: BoardView)
        ensures
            r.pipelines@.len() == board.pipelines@.len(),
            forall|j: int|
                0 <= j < board.pipelines@.len() ==> (#[trigger] r.pipelines@[j]) == (PipelineView {
                    pipeline: board.pipelines@[j],
                    hidden: false,
                    selected_issue: 0,
                }),
            r.selected_pipeline == 0,
            r.wf(),
    {
        let mut remaining: Vec<Pipeline> = board.pipelines;
        let ghost all: Seq<Pipeline> = remaining@;
        let mut views: Vec<PipelineView> = Vec::new();
        while remaining.len() > 0
            invariant
                views@.len() + remaining@.len() == all.len(),
                all =~= views@.map_values(|pv: PipelineView| pv.pipeline) + remaining@,
                forall|j: int|
                    0 <= j < views@.len() ==> (#[trigger] views@[j]) == (PipelineView {
                        pipeline: all[j],
                        hidden: false,
                        selected_issue: 0,
                    }),
            decreases remaining@.len(),
        {
            let p = remaining.remove(0);
            views.push(PipelineView::from_pipeline(p));
        }
        BoardView { pipelines: views, selected_pipeline: 0 }
    }

    /// Moves the selection to the next visible pipeline, if any; clamps at
    /// the end, never wraps around.
    pub fn select_next_pipeline(&mut self)
        requires
            old(self).sel_in_bounds(),
        ensures
            final(self).pipelines == old(self).pipelines,
            final(self).sel_in_bounds(),
            old(self).selection_ok() ==> final(self).selection_ok(),
            old(self).wf() ==> final(self).wf(),
            view_step(*old(self), ViewOp::SelectNext, *final(self)),
    {
        let n = self.pipelines.len();
        if n == 0 {
            return ;
        }
        let cur = self.selected_pipeline;
        let mut j: usize = cur + 1;
        while j < n
            invariant
                cur < j <= n,
                n == self.pipelines@.len(),
                *self == *old(self),
                cur == old(self).selected_pipeline,
                forall|k: int| cur < k < j ==> (#[trigger] self.pipelines@[k]).hidden,
            decreases n - j,
        {
            if !self.pipelines[j].hidden {
                self.selected_pipeline = j;
                proof {
                    assert(visible_at(self.pipelines@, j as int));
                }
                return ;
            }
            j += 1;
        }
    }

    /// Moves the selection to the previous visible pipeline, if any; clamps
    /// at the start, never wraps around.
    pub fn select_previous_pipeline(&mut self)
        requires
            old(self).sel_in_bounds(),
        ensures
            final(self).pipelines == old(self).pipelines,
            final(self).sel_in_bounds(),
            old(self).selection_ok() ==> final(self).selection_ok(),
            old(self).wf() ==> final(self).wf(),
            view_step(*old(self), ViewOp::SelectPrevious, *final(self)),
    {
        let n = self.pipelines.len();
        if n == 0 {
            return ;
        }
        let cur = self.selected_pipeline;
        let mut j: usize = cur;
        while j > 0
            invariant
                j <= cur,
                cur < n,
                n == self.pipelines@.len(),
                *self == *old(self),
                cur == old(self).selected_pipeline,
                forall|k: int| j <= k < cur ==> (#[trigger] self.pipelines@[k]).hidden,
            decreases j,
        {
            j -= 1;
            if !self.pipelines[j].hidden {
                self.selected_pipeline = j;
                proof {
                    assert(visible_at(self.pipelines@, j as int));
                }
                return ;
            }
        }
    }

    /// Hides the pipeline at `pipeline_index` (out-of-range indices are
    /// ignored) and re-selects: stay if the selected pipeline is still
    /// visible, else the nearest visible pipeline backward, else forward,
    /// else index 0.
    pub fn hide_pipeline(&mut self, pipeline_index: usize)
        requires
            old(self).selection_ok(),
        ensures
            final(self).selection_ok(),
            old(self).wf() ==> final(self).wf(),
            view_step(*old(self), ViewOp::Hide(pipeline_index), *final(self)),
    {
        let n = self.pipelines.len();
        if pipeline_index >= n {
            return ;
        }
        let pv = self.pipelines.remove(pipeline_index);
        let pv2 = PipelineView {
            pipeline: pv.pipeline,
            hidden: true,
            selected_issue: pv.selected_issue,
        };
        self.pipelines.insert(pipeline_index, pv2);
        proof {
            assert(self.pipelines@ =~= old(self).pipelines@.update(
                pipeline_index as int,
                hidden_pv(old(self).pipelines@[pipeline_index as int]),
            ));
        }
        let ghost s2 = self.pipelines@;
        let cur = self.selected_pipeline;
        if self.pipelines[cur].hidden {
            self.select_previous_pipeline();
            if self.pipelines[self.selected_pipeline].hidden {
                proof {
                    // The backward scan found nothing, so the selection is
                    // still at `cur`.
                    assert(self.selected_pipeline == cur);
                }
                self.select_next_pipeline();
                if self.pipelines[self.selected_pipeline].hidden {
                    proof {
                        assert(self.selected_pipeline == cur);
                        assert forall|j: int| 0 <= j < s2.len() implies (#[trigger] s2[j]).hidden by {
                            if j < cur {
                                assert(s2[j].hidden);
                            } else if j == cur {
                                assert(s2[j].hidden);
                            } else {
                                assert(s2[j].hidden);
                            }
                        }
                        assert(!any_visible(s2)) by {
                            if any_visible(s2) {
                                let i = choose|i: int| visible_at(s2, i);
                                assert(s2[i].hidden);
                            }
                        }
                    }
                    self.selected_pipeline = 0;
                } else {
                    proof {
                        assert(visible_at(s2, self.selected_pipeline as int));
                    }
                }
            } else {
                proof {
                    assert(visible_at(s2, self.selected_pipeline as int));
                }
            }
        } else {
            proof {
                assert(visible_at(s2, cur as int));
            }
        }
        proof {
            if old(self).wf() {
                assert forall|j: int|
                    0 <= j < self.pipelines@.len() implies (#[trigger] self.pipelines@[j]).wf() by {
                    assert(old(self).pipelines@[j].wf());
                }
            }
        }
    }

    /// Clears every hidden flag; the selection index is untouched.
    pub fn show_all_pipelines(&mut self)
        ensures
            final(self).selected_pipeline == old(self).selected_pipeline,
            old(self).selection_ok() ==> final(self).selection_ok(),
            old(self).wf() ==> final(self).wf(),
            view_step(*old(self), ViewOp::ShowAll, *final(self)),
    {
        let n = self.pipelines.len();
        let mut i: usize = 0;
        while i < n
            invariant
                i <= n,
                n == self.pipelines@.len(),
                n == old(self).pipelines@.len(),
                self.selected_pipeline == old(self).selected_pipeline,
                forall|j: int|
                    0 <= j < i ==> (#[trigger] self.pipelines@[j]) == shown_pv(
                        old(self).pipelines@[j],
                    ),
                forall|j: int|
                    i <= j < n ==> (#[trigger] self.pipelines@[j]) == old(self).pipelines@[j],
            decreases n - i,
        {
            let ghost prev = self.pipelines@;
            let pv = self.pipelines.remove(i);
            let pv2 = PipelineView {
                pipeline: pv.pipeline,
                hidden: false,
                selected_issue: pv.selected_issue,
            };
            self.pipelines.insert(i, pv2);
            proof {
                assert(self.pipelines@ =~= prev.update(i as int, pv2));
            }
            i += 1;
        }
        proof {
            if old(self).selection_ok() {
                if n > 0 {
                    assert(visible_at(self.pipelines@, self.selected_pipeline as int));
                }
            }
            if old(self).wf() {
                assert forall|j: int|
                    0 <= j < self.pipelines@.len() implies (#[trigger] self.pipelines@[j]).wf() by {
                    assert(old(self).pipelines@[j].wf());
                }
            }
        }
    }

    /// The selected pipeline view, or `None` on an empty board.
    pub fn selected_pipeline_view(&self) -> (r: Option<&PipelineView>)
        ensures
            match r {
                Some(p) => self.selected_pipeline < self.pipelines@.len() && *p
                    == self.pipelines@[self.selected_pipeline as int],
                None => self.selected_pipeline >= self.pipelines@.len(),
            },
    {
        if self.selected_pipeline < self.pipelines.len() {
            Some(&self.pipelines[self.selected_pipeline])
        } else {
            None
        }
    }

    /// Selects an issue within the selected pipeline, clamped to its issue
    /// count; does nothing on an empty board.
    pub fn select_issue(&mut self, issue_index: usize)
        ensures
            final(self).selected_pipeline == old(self).selected_pipeline,
            old(self).selection_ok() ==> final(self).selection_ok(),
            old(self).wf() ==> final(self).wf(),
            view_step(*old(self), ViewOp::SelectIssue(issue_index), *final(self)),
    {
        let cur = self.selected_pipeline;
        if cur >= self.pipelines.len() {
            return ;
        }
        let mut pv = self.pipelines.remove(cur);
        pv.select_issue(issue_index);
        self.pipelines.insert(cur, pv);
        proof {
            let s = old(self).pipelines@;
            let pvold = s[cur as int];
            let pv2 = PipelineView {
                pipeline: pvold.pipeline,
                hidden: pvold.hidden,
                selected_issue: pvold.clamped_issue(issue_index) as usize,
            };
            assert(self.pipelines@ =~= s.update(cur as int, pv2));
            assert(forall|j: int|
                0 <= j < s.len() ==> (#[trigger] self.pipelines@[j]).hidden == s[j].hidden);
            if old(self).selection_ok() {
                lemma_same_hidden_selection(s, self.pipelines@, self.selected_pipeline as int);
            }
            if old(self).wf() {
                assert forall|j: int|
                    0 <= j < self.pipelines@.len() implies (#[trigger] self.pipelines@[j]).wf() by {
                    assert(s[j].wf());
                }
            }
        }
    }
}

/// One operation on the view state.
pub enum ViewOp {
    SelectNext,
    SelectPrevious,
    SelectIssue(usize),
    Hide(usize),
    ShowAll,
}

/// The relation each operation establishes between the state before and
/// the state after; the operations' contracts state exactly these.
pub open spec fn view_step(pre: BoardView, op: ViewOp, post: BoardView) -> bool {
    match op {
        ViewOp::SelectNext => {
            &&& post.pipelines == pre.pipelines
            &&& steps_to_next_visible(
                pre.pipelines@,
                pre.selected_pipeline as int,
                post.selected_pipeline as int,
            )
        },
        ViewOp::SelectPrevious => {
            &&& post.pipelines == pre.pipelines
            &&& steps_to_previous_visible(
                pre.pipelines@,
                pre.selected_pipeline as int,
                post.selected_pipeline as int,
            )
        },
        ViewOp::SelectIssue(issue_index) => {
            let s = pre.pipelines@;
            let cur = pre.selected_pipeline as int;
            &&& (if cur < s.len() {
                let pv = s[cur];
                post.pipelines@ == s.update(
                    cur,
                    PipelineView {
                        pipeline: pv.pipeline,
                        hidden: pv.hidden,
                        selected_issue: pv.clamped_issue(issue_index) as usize,
                    },
                )
            } else {
                post.pipelines@ == s
            })
            &&& post.selected_pipeline == pre.selected_pipeline
        },
        ViewOp::Hide(pipeline_index) => {
            let s = pre.pipelines@;
            if pipeline_index < s.len() {
                let s2 = s.update(pipeline_index as int, hidden_pv(s[pipeline_index as int]));
                &&& post.pipelines@ == s2
                &&& hide_selection(
                    s2,
                    pre.selected_pipeline as int,
                    post.selected_pipeline as int,
                )
            } else {
                post == pre
            }
        },
        ViewOp::ShowAll => {
            &&& post.pipelines@.len() == pre.pipelines@.len()
            &&& forall|j: int|
                0 <= j < pre.pipelines@.len() ==> (#[trigger] post.pipelines@[j]) == shown_pv(
                    pre.pipelines@[j],
                )
            &&& post.selected_pipeline == pre.selected_pipeline
        },
    }
}

/// One operation keeps the selection invariant: however it moves the
/// state, a valid selection stays valid.
pub proof fn lemma_step_keeps_selection(pre: BoardView, op: ViewOp, post: BoardView)
    requires
        pre.selection_ok(),
        view_step(pre, op, post),
    ensures
        post.selection_ok(),
{
    match op {
        ViewOp::SelectNext => {
            let cur = pre.selected_pipeline as int;
            let nsel = post.selected_pipeline as int;
            let s = pre.pipelines@;
            if exists|j: int| cur < j < s.len() && !(#[trigger] s[j]).hidden {
                assert(visible_at(post.pipelines@, nsel));
            } else {
                assert(post.pipelines@ == pre.pipelines@);
            }
        },
        ViewOp::SelectPrevious => {
            let cur = pre.selected_pipeline as int;
            let nsel = post.selected_pipeline as int;
            let s = pre.pipelines@;
            if exists|j: int| 0 <= j < cur && !(#[trigger] s[j]).hidden {
                assert(visible_at(post.pipelines@, nsel));
            } else {
                assert(post.pipelines@ == pre.pipelines@);
            }
        },
        ViewOp::SelectIssue(_) => {
            let s = pre.pipelines@;
            let cur = pre.selected_pipeline as int;
            if cur < s.len() {
                assert(forall|j: int|
                    0 <= j < s.len() ==> (#[trigger] post.pipelines@[j]).hidden == s[j].hidden);
                lemma_same_hidden_selection(s, post.pipelines@, cur);
            } else {
                assert(post.pipelines@ =~= s);
            }
        },
        ViewOp::Hide(pipeline_index) => {
            let s = pre.pipelines@;
            if pipeline_index < s.len() {
                let s2 = post.pipelines@;
                let cur = pre.selected_pipeline as int;
                let nsel = post.selected_pipeline as int;
                // The old selection is in bounds: either it was visible, or
                // nothing was and it sat at 0 on a non-empty board.
                assert(0 <= cur < s.len());
                if visible_at(s2, cur) {
                    assert(visible_at(s2, nsel));
                } else if exists|j: int| 0 <= j < cur && !(#[trigger] s2[j]).hidden {
                    assert(visible_at(s2, nsel));
                } else if exists|j: int| cur < j < s2.len() && !(#[trigger] s2[j]).hidden {
                    assert(visible_at(s2, nsel));
                } else {
                    assert forall|j: int| 0 <= j < s2.len() implies (#[trigger] s2[j]).hidden by {
                        if j < cur {
                            assert(s2[j].hidden);
                        } else if j == cur {
                            assert(s2[j].hidden);
                        } else {
                            assert(s2[j].hidden);
                        }
                    }
                    assert(!any_visible(s2)) by {
                        if any_visible(s2) {
                            let i = choose|i: int| visible_at(s2, i);
                            assert(s2[i].hidden);
                        }
                    }
                }
            }
        },
        ViewOp::ShowAll => {
            let s2 = post.pipelines@;
            if s2.len() > 0 {
                let cur = pre.selected_pipeline as int;
                assert(0 <= cur < s2.len());
                assert(visible_at(s2, cur));
            }
        },
    }
}

/// For any run of operations: every state reached from a state with a
/// valid selection keeps the selected pipeline visible, or at index 0
/// when no pipeline is visible.
pub proof fn lemma_selection_ok_along_trace(states: Seq<BoardView>, ops: Seq<ViewOp>)
    requires
        states.len() == ops.len() + 1,
        states[0].selection_ok(),
        forall|k: int| 0 <= k < ops.len() ==> view_step(states[k], #[trigger] ops[k], states[k + 1]),
    ensures
        forall|k: int| 0 <= k < states.len() ==> (#[trigger] states[k]).selection_ok(),
    decreases ops.len(),
{
    if ops.len() == 0 {
        assert forall|k: int| 0 <= k < states.len() implies (#[trigger] states[k]).selection_ok() by {
            assert(k == 0);
        }
    } else {
        assert(view_step(states[0], ops[0], states[1]));
        lemma_step_keeps_selection(states[0], ops[0], states[1]);
        let tail_states = states.drop_first();
        let tail_ops = ops.drop_first();
        assert forall|k: int|
            0 <= k < tail_ops.len() implies view_step(
            tail_states[k],
            #[trigger] tail_ops[k],
            tail_states[k + 1],
        ) by {
            assert(tail_states[k] == states[k + 1]);
            assert(tail_ops[k] == ops[k + 1]);
            assert(tail_states[k + 1] == states[k + 2]);
            assert(view_step(states[k + 1], ops[k + 1], states[k + 2]));
        }
        assert(tail_states[0] == states[1]);
        lemma_selection_ok_along_trace(tail_states, tail_ops);
        assert forall|k: int| 0 <= k < states.len() implies (#[trigger] states[k]).selection_ok() by {
            if k > 0 {
                assert(tail_states[k - 1] == states[k]);
                assert(tail_states[k - 1].selection_ok());
            }
        }
    }
}

} // verus!
