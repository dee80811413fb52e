//! Board data model: the ordered pipelines of a board and the issue
//! references they hold.

use vstd::prelude::*;

use crate::github::{IssueNumber, RepoId};

verus! {

/// Reference from a pipeline to an issue, by number.
#[derive(Clone, Copy, Debug, PartialEq, Eq, Structural)]
pub struct IssueRef {
    pub number: IssueNumber,
    pub is_epic: bool,
}

/// The items an issue-reference vector holds, in order.
pub uninterp spec fn issue_refs_seq(v: im::Vector<IssueRef>) -> Seq<IssueRef>;

/// Relies on im::Vector::len: the number of items in the vector.
#[verifier::external_body]
pub(crate) fn issue_refs_len(v: &im::Vector<IssueRef>) -> (n: usize)
    ensures
        n == issue_refs_seq(*v).len(),
{
    v.len()
}

/// Relies on im::Vector::get: `Some` of the item at `i` when `i` is in
/// bounds, `None` otherwise.
#[verifier::external_body]
pub(crate) fn issue_refs_get(v: &im::Vector<IssueRef>, i: usize) -> (r: Option<&IssueRef>)
    ensures
        match r {
            Some(x) => i < issue_refs_seq(*v).len() && *x == issue_refs_seq(*v)[i as int],
            None => i >= issue_refs_seq(*v).len(),
        },
{
    v.get(i)
}

/// Relies on im::Vector::from_iter: collects the items in order.
#[verifier::external_body]
pub(crate) fn issue_refs_from_vec(v: Vec<IssueRef>) -> (r: im::Vector<IssueRef>)
    ensures
        issue_refs_seq(r) == v@,
{
    v.into_iter().collect()
}

/// One pipeline of a board: an identifier, a display name, and the ordered
/// references to its issues.
#[derive(Clone, Debug, PartialEq)]
pub struct Pipeline {
    pub id: String,
    pub name: String,
    pub issues: im::Vector<IssueRef>,
}

impl Pipeline {
    /// Builds a pipeline from plain values; the issue list keeps its order.
    pub fn new(id: String, name: String, issues: Vec<IssueRef>) -> (r: Pipeline)
        ensures
            r.id == id,
            r.name == name,
            issue_refs_seq(r.issues) == issues@,
    {
        Pipeline { id, name, issues: issue_refs_from_vec(issues) }
    }

    /// Number of issues the pipeline references.
    pub fn issue_count(&self) -> (n: usize)
        ensures
            n == issue_refs_seq(self.issues).len(),
    {
        issue_refs_len(&self.issues)
    }
}

/// A board: the ordered pipelines, as fetched once per session.
#[derive(Clone, Debug, PartialEq, Default)]
pub struct Board {
    pub pipelines: Vec<Pipeline>,
}

/// API token for the board service.
#[derive(Clone, Debug, PartialEq, Eq)]
pub struct Token(pub String);

/// Request path for the oldest board of a repository.
pub fn board_path(repo_id: RepoId) -> (r: String)
    ensures
        r@ == "/p1/repositories/"@ + crate::decimal::dec_rep(repo_id.0 as int) + "/board"@,
{
    let id = crate::decimal::u64_to_dec(repo_id.0);
    let path = String::from_str("/p1/repositories/").concat(id.as_str()).concat("/board");
    proof {
        assert(path@ =~= "/p1/repositories/"@ + crate::decimal::dec_rep(repo_id.0 as int)
            + "/board"@);
    }
    path
}

/// Request path for one issue of a repository on the board service.
pub fn issue_path(repo_id: RepoId, issue_number: IssueNumber) -> (r: String)
    ensures
        r@ == "/p1/repositories/"@ + crate::decimal::dec_rep(repo_id.0 as int) + "/issues/"@
            + crate::decimal::dec_rep(issue_number.0 as int),
{
    let id = crate::decimal::u64_to_dec(repo_id.0);
    let number = crate::decimal::u64_to_dec(issue_number.0);
    let path = String::from_str("/p1/repositories/").concat(id.as_str()).concat(
        "/issues/",
    ).concat(number.as_str());
    proof {
        assert(path@ =~= "/p1/repositories/"@ + crate::decimal::dec_rep(repo_id.0 as int)
            + "/issues/"@ + crate::decimal::dec_rep(issue_number.0 as int));
    }
    path
}

} // verus!
