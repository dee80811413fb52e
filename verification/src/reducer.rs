//! The reducer: the single authority that applies messages to the board
//! view, the issue store and the pending-task counter. Messages are
//! drained and applied one at a time, so every mutation is atomic with
//! respect to concurrent producers; each applied message asks for a
//! redraw, unconditionally.

use vstd::prelude::*;

use crate::github::{Issue, IssueNumber};
use crate::store::{FutureValue, IssueStore};
use crate::view::{steps_to_next_visible, steps_to_previous_visible, BoardView, PipelineView};
use crate::zenhub::{issue_refs_get, issue_refs_len, issue_refs_seq, Board, Pipeline};

verus! {

/// Bound on the per-pipeline fetch fan-out after a board load: caps the
/// burst on the remote service and the redraw churn.
pub const FETCH_FAN_OUT: usize = 7;

/// A message the reducer applies. Load completions carry either the value
/// or a display string describing the failure.
#[derive(Debug, PartialEq)]
pub enum Message {
    NextPipeline,
    PreviousPipeline,
    SelectIssue(usize),
    LoadedBoard(Result<Board, String>),
    LoadedIssue(IssueNumber, Result<Issue, String>),
    EditIssue(IssueNumber, Result<Issue, String>),
    HidePipeline(usize),
    ShowAllPipelines,
}

/// The load state a completion stores: the value on success, the message
/// on failure.
pub open spec fn stored_value(result: Result<Issue, String>) -> FutureValue<Issue> {
    match result {
        Ok(issue) => FutureValue::Ready(issue),
        Err(error) => FutureValue::Error(error),
    }
}

/// A decrement of the pending counter that stops at zero.
pub open spec fn dec_pending(n: usize) -> int {
    if n > 0 {
        n - 1
    } else {
        0
    }
}

/// The issue numbers one pipeline contributes to the fan-out: its first
/// `FETCH_FAN_OUT` issue references, in order.
pub open spec fn pipeline_fanout(p: Pipeline) -> Seq<IssueNumber> {
    let issues = issue_refs_seq(p.issues);
    let taken = if issues.len() < FETCH_FAN_OUT as int {
        issues.len() as int
    } else {
        FETCH_FAN_OUT as int
    };
    issues.take(taken).map_values(|ir: crate::zenhub::IssueRef| ir.number)
}

/// The issue numbers a whole board load fans out, pipeline by pipeline.
pub open spec fn fanout_of(ps: Seq<Pipeline>) -> Seq<IssueNumber>
    decreases ps.len(),
{
    if ps.len() == 0 {
        Seq::empty()
    } else {
        fanout_of(ps.drop_last()) + pipeline_fanout(ps.last())
    }
}

/// The reducer's exclusively owned state.
pub struct Reducer {
    pub board: BoardView,
    pub issues: IssueStore,
    /// Number of dispatched fetches whose completion has not arrived yet;
    /// drives only the liveness indicator.
    pub num_pending_tasks: usize,
    /// Set when the board itself failed to load: the board degrades to an
    /// empty one and this message is shown as a banner.
    pub board_error: Option<String>,
}

impl Reducer {
    /// Every index selection of the state is in range.
    pub open spec fn wf(self) -> bool {
        self.board.wf()
    }

    /// The state at startup: an empty board and one pending task, the
    /// board fetch the embedder dispatches right away.
    pub fn new() -> (r: Reducer)
        ensures
            r.board.pipelines@.len() == 0,
            r.board.selected_pipeline == 0,
            (r.issues@ == Map::<u64, FutureValue<Issue>>::empty()),
            r.num_pending_tasks == 1,
            r.board_error is None,
            r.wf(),
    {
        Reducer {
            board: BoardView::new(),
            issues: IssueStore::new(),
            num_pending_tasks: 1,
            board_error: None,
        }
    }

    /// Applies one message and returns the issue fetches the embedder must
    /// dispatch (non-empty only after a successful board load). A redraw
    /// follows every message, unconditionally.
    ///
    /// A failed board load is not retried: the board degrades to an empty
    /// one and the failure is kept for the banner. Every completion
    /// decrements the pending counter, stopping at zero; edits arrive out
    /// of band of the fetch fan-out and leave the counter untouched.
    pub fn update(&mut self, message: Message) -> (fetches: Vec<IssueNumber>)
        requires
            old(self).wf(),
        ensures
            final(self).wf(),
            match message {
                Message::NextPipeline => {
                    &&& final(self).board.pipelines == old(self).board.pipelines
                    &&& steps_to_next_visible(
                        old(self).board.pipelines@,
                        old(self).board.selected_pipeline as int,
                        final(self).board.selected_pipeline as int,
                    )
                    &&& final(self).issues@ == old(self).issues@
                    &&& final(self).num_pending_tasks == old(self).num_pending_tasks
                    &&& final(self).board_error == old(self).board_error
                    &&& fetches@.len() == 0
                },
                Message::PreviousPipeline => {
                    &&& final(self).board.pipelines == old(self).board.pipelines
                    &&& steps_to_previous_visible(
                        old(self).board.pipelines@,
                        old(self).board.selected_pipeline as int,
                        final(self).board.selected_pipeline as int,
                    )
                    &&& final(self).issues@ == old(self).issues@
                    &&& final(self).num_pending_tasks == old(self).num_pending_tasks
                    &&& final(self).board_error == old(self).board_error
                    &&& fetches@.len() == 0
                },
                Message::SelectIssue(issue_index) => {
                    &&& ({
                        let s = old(self).board.pipelines@;
                        let cur = old(self).board.selected_pipeline as int;
                        if cur < s.len() {
                            let pv = s[cur];
                            final(self).board.pipelines@ == s.update(
                                cur,
                                PipelineView {
                                    pipeline: pv.pipeline,
                                    hidden: pv.hidden,
                                    selected_issue: pv.clamped_issue(issue_index) as usize,
                                },
                            )
                        } else {
                            final(self).board.pipelines@ == s
                        }
                    })
                    &&& final(self).board.selected_pipeline == old(self).board.selected_pipeline
                    &&& final(self).issues@ == old(self).issues@
                    &&& final(self).num_pending_tasks == old(self).num_pending_tasks
                    &&& final(self).board_error == old(self).board_error
                    &&& fetches@.len() == 0
                },
                Message::LoadedBoard(result) => match result {
                    Ok(board) => {
                        &&& final(self).board.pipelines@.len() == board.pipelines@.len()
                        &&& forall|j: int|
                            0 <= j < board.pipelines@.len() ==> (#[trigger] final(self).board.pipelines@[j]) == (PipelineView {
                                pipeline: board.pipelines@[j],
                                hidden: false,
                                selected_issue: 0,
                            })
                        &&& final(self).board.selected_pipeline == 0
                        &&& fetches@ == fanout_of(board.pipelines@)
                        &&& final(self).num_pending_tasks == if dec_pending(
                            old(self).num_pending_tasks,
                        ) + fetches@.len() <= usize::MAX {
                            dec_pending(old(self).num_pending_tasks) + fetches@.len()
                        } else {
                            usize::MAX as int
                        }
                        &&& final(self).issues@ == old(self).issues@
                        &&& final(self).board_error is None
                    },
                    Err(error) => {
                        &&& final(self).board.pipelines@.len() == 0
                        &&& final(self).board.selected_pipeline == 0
                        &&& final(self).issues@ == old(self).issues@
                        &&& final(self).num_pending_tasks == dec_pending(
                            old(self).num_pending_tasks,
                        )
                        &&& final(self).board_error == Some(error)
                        &&& fetches@.len() == 0
                    },
                },
                Message::LoadedIssue(number, result) => {
                    &&& final(self).board == old(self).board
                    &&& final(self).issues@ == old(self).issues@.insert(
                        number.0,
                        stored_value(result),
                    )
                    &&& final(self).num_pending_tasks == dec_pending(old(self).num_pending_tasks)
                    &&& final(self).board_error == old(self).board_error
                    &&& fetches@.len() == 0
                },
                Message::EditIssue(number, result) => {
                    &&& final(self).board == old(self).board
                    &&& final(self).issues@ == old(self).issues@.insert(
                        number.0,
                        stored_value(result),
                    )
                    &&& final(self).num_pending_tasks == old(self).num_pending_tasks
                    &&& final(self).board_error == old(self).board_error
                    &&& fetches@.len() == 0
                },
                Message::HidePipeline(pipeline_index) => {
                    &&& ({
                        let s = old(self).board.pipelines@;
                        if pipeline_index < s.len() {
                            let s2 = s.update(
                                pipeline_index as int,
                                crate::view::hidden_pv(s[pipeline_index as int]),
                            );
                            &&& final(self).board.pipelines@ == s2
                            &&& crate::view::hide_selection(
                                s2,
                                old(self).board.selected_pipeline as int,
                                final(self).board.selected_pipeline as int,
                            )
                        } else {
                            final(self).board == old(self).board
                        }
                    })
                    &&& final(self).issues@ == old(self).issues@
                    &&& final(self).num_pending_tasks == old(self).num_pending_tasks
                    &&& final(self).board_error == old(self).board_error
                    &&& fetches@.len() == 0
                },
                Message::ShowAllPipelines => {
                    &&& final(self).board.pipelines@.len() == old(self).board.pipelines@.len()
                    &&& forall|j: int|
                        0 <= j < old(self).board.pipelines@.len() ==> (#[trigger] final(self).board.pipelines@[j]) == crate::view::shown_pv(old(self).board.pipelines@[j])
                    &&& final(self).board.selected_pipeline == old(self).board.selected_pipeline
                    &&& final(self).issues@ == old(self).issues@
                    &&& final(self).num_pending_tasks == old(self).num_pending_tasks
                    &&& final(self).board_error == old(self).board_error
                    &&& fetches@.len() == 0
                },
            },
    {
        match message {
            Message::NextPipeline => {
                self.board.select_next_pipeline();
                Vec::new()
            },
            Message::PreviousPipeline => {
                self.board.select_previous_pipeline();
                Vec::new()
            },
            Message::SelectIssue(issue_index) => {
                self.board.select_issue(issue_index);
                Vec::new()
            },
            Message::LoadedBoard(result) => match result {
                Ok(board) => {
                    self.num_pending_tasks = dec_pending_exec(self.num_pending_tasks);
                    let ghost loaded = board.pipelines@;
                    self.board = BoardView::from_board(board);
                    let fetches = self.collect_fanout(Ghost(loaded));
                    self.num_pending_tasks = add_pending_exec(
                        self.num_pending_tasks,
                        fetches.len(),
                    );
                    self.board_error = None;
                    fetches
                },
                Err(error) => {
                    self.num_pending_tasks = dec_pending_exec(self.num_pending_tasks);
                    self.board = BoardView::new();
                    self.board_error = Some(error);
                    Vec::new()
                },
            },
            Message::LoadedIssue(number, result) => {
                let value = match result {
                    Ok(issue) => FutureValue::Ready(issue),
                    Err(error) => FutureValue::Error(error),
                };
                self.issues.set(number, value);
                self.num_pending_tasks = dec_pending_exec(self.num_pending_tasks);
                Vec::new()
            },
            Message::EditIssue(number, result) => {
                let value = match result {
                    Ok(issue) => FutureValue::Ready(issue),
                    Err(error) => FutureValue::Error(error),
                };
                self.issues.set(number, value);
                Vec::new()
            },
            Message::HidePipeline(pipeline_index) => {
                self.board.hide_pipeline(pipeline_index);
                Vec::new()
            },
            Message::ShowAllPipelines => {
                self.board.show_all_pipelines();
                Vec::new()
            },
        }
    }

    /// Walks the freshly loaded pipelines and collects the first
    /// `FETCH_FAN_OUT` issue numbers of each.
    fn collect_fanout(&self, Ghost(loaded): Ghost<Seq<Pipeline>>) -> (fetches: Vec<IssueNumber>)
        requires
            self.board.pipelines@.len() == loaded.len(),
            forall|j: int|
                0 <= j < loaded.len() ==> (#[trigger] self.board.pipelines@[j]).pipeline
                    == loaded[j],
        ensures
            fetches@ == fanout_of(loaded),
    {
        let n = self.board.pipelines.len();
        let mut fetches: Vec<IssueNumber> = Vec::new();
        let mut pi: usize = 0;
        while pi < n
            invariant
                pi <= n,
                n == self.board.pipelines@.len(),
                n == loaded.len(),
                forall|j: int|
                    0 <= j < loaded.len() ==> (#[trigger] self.board.pipelines@[j]).pipeline
                        == loaded[j],
                fetches@ == fanout_of(loaded.take(pi as int)),
            decreases n - pi,
        {
            let p = &self.board.pipelines[pi].pipeline;
            let len = issue_refs_len(&p.issues);
            let take_n: usize = if len < FETCH_FAN_OUT {
                len
            } else {
                FETCH_FAN_OUT
            };
            let mut k: usize = 0;
            while k < take_n
                invariant
                    k <= take_n,
                    pi < n,
                    n == self.board.pipelines@.len(),
                    n == loaded.len(),
                    p == &self.board.pipelines@[pi as int].pipeline,
                    self.board.pipelines@[pi as int].pipeline == loaded[pi as int],
                    take_n as int == (if issue_refs_seq(p.issues).len() < FETCH_FAN_OUT as int {
                        issue_refs_seq(p.issues).len() as int
                    } else {
                        FETCH_FAN_OUT as int
                    }),
                    fetches@ == fanout_of(loaded.take(pi as int)) + issue_refs_seq(
                        p.issues,
                    ).take(k as int).map_values(|ir: crate::zenhub::IssueRef| ir.number),
                decreases take_n - k,
            {
                let r = issue_refs_get(&p.issues, k);
                match r {
                    Some(ir) => {
                        fetches.push(ir.number);
                    },
                    None => {
                        proof {
                            assert(false);
                        }
                    },
                }
                proof {
                    let s = issue_refs_seq(p.issues);
                    assert(s.take(k as int + 1).drop_last() =~= s.take(k as int));
                    assert(s.take(k as int + 1).map_values(
                        |ir: crate::zenhub::IssueRef| ir.number,
                    ) =~= s.take(k as int).map_values(|ir: crate::zenhub::IssueRef| ir.number)
                        + seq![s[k as int].number]);
                }
                k += 1;
            }
            proof {
                assert(loaded.take(pi as int + 1).drop_last() =~= loaded.take(pi as int));
                assert(loaded.take(pi as int + 1).last() == loaded[pi as int]);
                assert(fetches@ =~= fanout_of(loaded.take(pi as int + 1)));
            }
            pi += 1;
        }
        proof {
            assert(loaded.take(n as int) =~= loaded);
        }
        fetches
    }
}

/// Decrements the pending counter, stopping at zero.
fn dec_pending_exec(n: usize) -> (r: usize)
    ensures
        r as int == dec_pending(n),
{
    if n > 0 {
        n - 1
    } else {
        0
    }
}

/// Adds dispatched fetches to the pending counter, stopping at the
/// machine bound.
fn add_pending_exec(n: usize, k: usize) -> (r: usize)
    ensures
        r as int == if n + k <= usize::MAX {
            n + k
        } else {
            usize::MAX as int
        },
{
    if n <= usize::MAX - k {
        n + k
    } else {
        usize::MAX
    }
}

/// One effect on the pending counter: dispatching a fetch increments it,
/// a completion decrements it.
pub enum CounterEvent {
    Dispatch,
    Complete,
}

/// How many events of `es` are dispatches.
pub open spec fn dispatches(es: Seq<CounterEvent>) -> int
    decreases es.len(),
{
    if es.len() == 0 {
        0
    } else {
        dispatches(es.drop_last()) + (if es.last() is Dispatch {
            1int
        } else {
            0int
        })
    }
}

/// How many events of `es` are completions.
pub open spec fn completions(es: Seq<CounterEvent>) -> int
    decreases es.len(),
{
    if es.len() == 0 {
        0
    } else {
        completions(es.drop_last()) + (if es.last() is Complete {
            1int
        } else {
            0int
        })
    }
}

/// The pending counter after a sequence of events, with the decrement
/// stopping at zero as the reducer's does.
pub open spec fn counter_after(es: Seq<CounterEvent>) -> int
    decreases es.len(),
{
    if es.len() == 0 {
        0
    } else {
        let c = counter_after(es.drop_last());
        match es.last() {
            CounterEvent::Dispatch => c + 1,
            CounterEvent::Complete => if c > 0 {
                c - 1
            } else {
                0
            },
        }
    }
}

/// The pending counter never goes negative: for any event sequence in
/// which every prefix holds at least as many dispatches as completions —
/// each dispatch paired with at most one later completion — the counter
/// equals dispatches minus completions, so the stop-at-zero decrement
/// never actually engages and the count stays non-negative.
pub proof fn lemma_counter_never_negative(es: Seq<CounterEvent>)
    requires
        forall|k: int|
            0 <= k <= es.len() ==> completions(#[trigger] es.take(k)) <= dispatches(es.take(k)),
    ensures
        counter_after(es) == dispatches(es) - completions(es),
        counter_after(es) >= 0,
    decreases es.len(),
{
    if es.len() == 0 {
    } else {
        let prefix = es.drop_last();
        assert forall|k: int|
            0 <= k <= prefix.len() implies completions(#[trigger] prefix.take(k)) <= dispatches(
            prefix.take(k),
        ) by {
            assert(prefix.take(k) =~= es.take(k));
        }
        lemma_counter_never_negative(prefix);
        assert(es.take(es.len() as int) =~= es);
        assert(es.take(prefix.len() as int) =~= prefix);
    }
}

} // verus!
