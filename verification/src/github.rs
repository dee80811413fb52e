//! Issue-tracker data model: repositories, issues, labels, and the request
//! paths the fetch service uses.

use vstd::prelude::*;

use crate::colour::Colour;

verus! {

/// Numeric identifier of a repository.
#[derive(Clone, Copy, Debug, PartialEq, Eq, Structural)]
pub struct RepoId(pub u64);

/// Full name of a repository, in `owner/name` form.
#[derive(Clone, Debug, PartialEq, Eq)]
pub struct RepoFullName(pub String);

/// A repository as the fetch service reports it.
#[derive(Clone, Debug, PartialEq, Eq)]
pub struct Repo {
    pub id: RepoId,
    pub full_name: RepoFullName,
}

/// Number of an issue within its repository.
#[derive(Clone, Copy, Debug, PartialEq, Eq, Hash, Structural)]
pub struct IssueNumber(pub u64);

/// Whether an issue is open or closed.
#[derive(Clone, Copy, Debug, PartialEq, Eq, Structural)]
pub enum IssueState {
    Open,
    Closed,
}

/// Marker carried by issues that are pull requests.
#[derive(Clone, Debug, PartialEq, Eq)]
pub struct PullRequestRefs {}

/// A label attached to an issue: a name and a background colour.
#[derive(Clone, Debug, PartialEq, Eq)]
pub struct Label {
    pub name: String,
    pub color: Colour,
}

/// Full detail of one issue.
#[derive(Clone, Debug, PartialEq, Eq)]
pub struct Issue {
    pub number: IssueNumber,
    pub title: String,
    pub body: String,
    pub state: IssueState,
    pub labels: im::Vector<Label>,
    pub pull_request: Option<PullRequestRefs>,
}

/// API token for the issue-tracker service.
#[derive(Clone, Debug, PartialEq, Eq)]
pub struct Token(pub String);

#[verifier::external_type_specification]
#[verifier::external_body]
#[verifier::reject_recursive_types(A)]
pub struct ExImVector<A>(im::Vector<A>);

/// Relies on im::Vector::clone: a persistent vector, so a clone is the
/// same value.
pub assume_specification<A>[ <im::Vector<A> as Clone>::clone ](v: &im::Vector<A>) -> (r: im::
    Vector<A>) where A: Clone
    ensures
        r == *v,
;

/// The items a label vector holds, in order.
pub uninterp spec fn labels_seq(v: im::Vector<Label>) -> Seq<Label>;

/// Relies on im::Vector::len: the number of items in the vector.
#[verifier::external_body]
pub(crate) fn labels_len(v: &im::Vector<Label>) -> (n: usize)
    ensures
        n == labels_seq(*v).len(),
{
    v.len()
}

/// Relies on im::Vector::get: `Some` of the item at `i` when `i` is in
/// bounds, `None` otherwise.
#[verifier::external_body]
pub(crate) fn labels_get(v: &im::Vector<Label>, i: usize) -> (r: Option<&Label>)
    ensures
        match r {
            Some(l) => i < labels_seq(*v).len() && *l == labels_seq(*v)[i as int],
            None => i >= labels_seq(*v).len(),
        },
{
    v.get(i)
}

/// Relies on im::Vector::from_iter: collects the items in order.
#[verifier::external_body]
pub(crate) fn labels_from_vec(v: Vec<Label>) -> (r: im::Vector<Label>)
    ensures
        labels_seq(r) == v@,
{
    v.into_iter().collect()
}

/// Request path for a repository.
pub fn repo_path(full_name: &RepoFullName) -> (r: String)
    ensures
        r@ == "/repos/"@ + full_name.0@,
{
    let path = String::from_str("/repos/").concat(full_name.0.as_str());
    proof {
        assert(path@ =~= "/repos/"@ + full_name.0@);
    }
    path
}

/// Request path for one issue of a repository.
pub fn issue_path(repo: &RepoFullName, issue_number: IssueNumber) -> (r: String)
    ensures
        r@ == "/repos/"@ + repo.0@ + "/issues/"@ + crate::decimal::dec_rep(issue_number.0 as int),
{
    let number = crate::decimal::u64_to_dec(issue_number.0);
    let path = String::from_str("/repos/").concat(repo.0.as_str()).concat("/issues/").concat(
        number.as_str(),
    );
    proof {
        assert(path@ =~= "/repos/"@ + repo.0@ + "/issues/"@ + crate::decimal::dec_rep(
            issue_number.0 as int,
        ));
    }
    path
}

impl Issue {
    /// Builds an issue from plain values; the label list keeps its order.
    pub fn new(
        number: IssueNumber,
        title: String,
        body: String,
        state: IssueState,
        labels: Vec<Label>,
        pull_request: Option<PullRequestRefs>,
    ) -> (r: Issue)
        ensures
            r.number == number,
            r.title == title,
            r.body == body,
            r.state == state,
            labels_seq(r.labels) == labels@,
            r.pull_request == pull_request,
    {
        Issue { number, title, body, state, labels: labels_from_vec(labels), pull_request }
    }
}

} // verus!
