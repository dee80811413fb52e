//! The chord matcher: turns the currently buffered key sequence into a
//! command, and says whether the buffer is consumed (`Clear`) or kept for
//! a follow-up key (`Continue`). A leader key awaiting its second key is
//! the only state kept, and it lives entirely in the buffer: no timeout
//! ever clears a pending prefix.

use vstd::prelude::*;

use crate::github::IssueNumber;
use crate::reducer::{Message, Reducer};
use crate::store::FutureValue;
use crate::zenhub::{issue_refs_get, issue_refs_len, issue_refs_seq};

verus! {

/// A key press, as the terminal reports it.
#[derive(Clone, Copy, Debug, PartialEq, Eq, Structural)]
pub enum Key {
    Backspace,
    Left,
    Right,
    Up,
    Down,
    Home,
    End,
    PageUp,
    PageDown,
    BackTab,
    Delete,
    Insert,
    F(u8),
    Char(char),
    Alt(char),
    Ctrl(char),
    Null,
    Esc,
}

/// What happens to the buffered key sequence after an evaluation.
#[derive(Clone, Copy, Debug, PartialEq, Eq, Structural)]
pub enum BindingTransition {
    /// Consume the buffer and return to the idle state.
    Clear,
    /// Keep the buffer: its prefix is a recognized leader awaiting a
    /// follow-up key.
    Continue,
}

/// What the embedder does in response to a recognized chord.
#[derive(Debug, PartialEq)]
pub enum InputAction {
    /// Apply a message through the reducer.
    Dispatch(Message),
    /// Run the external editor, synchronously, on the issue with this
    /// number; the reducer is blocked for the whole edit.
    EditIssue(IssueNumber),
    /// Leave the application.
    Exit,
}

/// The outcome of matching one buffered key sequence.
pub struct BindingMatch {
    pub transition: BindingTransition,
    pub action: Option<InputAction>,
}

/// The issue the Enter chord would edit: the selected issue of the
/// selected pipeline, provided its load has finished successfully.
pub open spec fn editable_issue(r: Reducer) -> Option<IssueNumber> {
    let s = r.board.pipelines@;
    let cur = r.board.selected_pipeline as int;
    if cur < s.len() {
        let pv = s[cur];
        let issues = issue_refs_seq(pv.pipeline.issues);
        if pv.selected_issue < issues.len() {
            let n = issues[pv.selected_issue as int].number;
            if r.issues@.contains_key(n.0) && r.issues@[n.0] is Ready {
                Some(n)
            } else {
                None
            }
        } else {
            None
        }
    } else {
        None
    }
}

/// The transition a key sequence produces.
pub open spec fn binding_transition(keys: Seq<Key>) -> BindingTransition {
    if keys =~= seq![Key::Ctrl('x')] {
        BindingTransition::Continue
    } else {
        BindingTransition::Clear
    }
}

/// The action a key sequence produces, given the current state.
pub open spec fn binding_action(r: Reducer, keys: Seq<Key>) -> Option<InputAction> {
    if keys.len() == 1 {
        let k = keys[0];
        if k == Key::Ctrl('f') || k == Key::Right || k == Key::Char('l') {
            Some(InputAction::Dispatch(Message::NextPipeline))
        } else if k == Key::Ctrl('b') || k == Key::Left || k == Key::Char('h') {
            Some(InputAction::Dispatch(Message::PreviousPipeline))
        } else if k == Key::Char('\n') {
            match editable_issue(r) {
                Some(n) => Some(InputAction::EditIssue(n)),
                None => None,
            }
        } else if k == Key::Ctrl('h') {
            Some(InputAction::Dispatch(Message::HidePipeline(r.board.selected_pipeline as usize)))
        } else {
            None
        }
    } else if keys.len() == 2 && keys[0] == Key::Ctrl('x') {
        if keys[1] == Key::Ctrl('h') {
            Some(InputAction::Dispatch(Message::ShowAllPipelines))
        } else if keys[1] == Key::Ctrl('c') {
            Some(InputAction::Exit)
        } else {
            None
        }
    } else {
        None
    }
}

impl Reducer {
    /// Matches the buffered key sequence against the bindings: single-key
    /// pipeline navigation, Enter to edit the selected issue, a hide
    /// chord, and the leader-prefixed chords to reveal all pipelines or
    /// exit. An unmatched sequence clears, unless it is exactly the
    /// pending leader, which continues.
    pub fn input_binding(&self, pressed: &Vec<Key>) -> (r: BindingMatch)
        ensures
            r.transition == binding_transition(pressed@),
            r.action == binding_action(*self, pressed@),
    {
        let mut transition = BindingTransition::Clear;
        let mut action: Option<InputAction> = None;
        if pressed.len() == 1 {
            let k = pressed[0];
            if k == Key::Ctrl('f') || k == Key::Right || k == Key::Char('l') {
                action = Some(InputAction::Dispatch(Message::NextPipeline));
            } else if k == Key::Ctrl('b') || k == Key::Left || k == Key::Char('h') {
                action = Some(InputAction::Dispatch(Message::PreviousPipeline));
            } else if k == Key::Char('\n') {
                action = match self.editable_issue_number() {
                    Some(n) => Some(InputAction::EditIssue(n)),
                    None => None,
                };
            } else if k == Key::Ctrl('h') {
                action = Some(InputAction::Dispatch(Message::HidePipeline(
                    self.board.selected_pipeline,
                )));
            } else if k == Key::Ctrl('x') {
                transition = BindingTransition::Continue;
                proof {
                    assert(pressed@ =~= seq![Key::Ctrl('x')]);
                }
            }
        } else if pressed.len() == 2 {
            let k0 = pressed[0];
            let k1 = pressed[1];
            if k0 == Key::Ctrl('x') {
                if k1 == Key::Ctrl('h') {
                    action = Some(InputAction::Dispatch(Message::ShowAllPipelines));
                } else if k1 == Key::Ctrl('c') {
                    action = Some(InputAction::Exit);
                }
            }
        }
        proof {
            if pressed@.len() != 1 || pressed@[0] != Key::Ctrl('x') {
                assert(!(pressed@ =~= seq![Key::Ctrl('x')]));
            }
        }
        BindingMatch { transition, action }
    }

    /// The number of the selected issue when it can be edited: the board
    /// is non-empty, the selected pipeline has issues, and the issue has
    /// finished loading.
    pub fn editable_issue_number(&self) -> (r: Option<IssueNumber>)
        ensures
            r == editable_issue(*self),
    {
        match self.board.selected_pipeline_view() {
            Some(pv) => {
                let count = issue_refs_len(&pv.pipeline.issues);
                if pv.selected_issue < count {
                    match issue_refs_get(&pv.pipeline.issues, pv.selected_issue) {
                        Some(ir) => {
                            let number = ir.number;
                            match self.issues.get(number) {
                                Some(value) => match value {
                                    FutureValue::Ready(_) => Some(number),
                                    FutureValue::Pending => None,
                                    FutureValue::Error(_) => None,
                                },
                                None => None,
                            }
                        },
                        None => None,
                    }
                } else {
                    None
                }
            },
            None => None,
        }
    }
}

} // verus!
