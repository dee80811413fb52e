//! Text handed to and received from the external editor. The editor opens
//! on `title`, a blank line, then `body`; of the text it returns, the
//! first line becomes the new title and the remainder, less the blank
//! separator line, the new body.

use vstd::prelude::*;

use crate::github::Issue;

verus! {

/// The text the editor opens: title, a blank line, body.
pub open spec fn composed_text(title: Seq<char>, body: Seq<char>) -> Seq<char> {
    title + seq!['\n', '\n'] + body
}

/// Index of the first newline of `s`, or its length when there is none.
pub open spec fn first_newline(s: Seq<char>) -> int
    decreases s.len(),
{
    if s.len() == 0 {
        0
    } else if s[0] == '\n' {
        0
    } else {
        1 + first_newline(s.drop_first())
    }
}

/// The title an edited text yields: everything before the first newline.
pub open spec fn edited_title(s: Seq<char>) -> Seq<char> {
    s.take(first_newline(s))
}

/// The body an edited text yields: everything after the first newline,
/// less one more leading newline when present (the blank separator).
pub open spec fn edited_body(s: Seq<char>) -> Seq<char> {
    let p = first_newline(s);
    if p >= s.len() {
        Seq::empty()
    } else {
        let rest = s.skip(p + 1);
        if rest.len() > 0 && rest[0] == '\n' {
            rest.skip(1)
        } else {
            rest
        }
    }
}

/// The first newline lies within the text.
proof fn lemma_first_newline_le_len(s: Seq<char>)
    ensures
        0 <= first_newline(s) <= s.len(),
    decreases s.len(),
{
    if s.len() > 0 && s[0] != '\n' {
        lemma_first_newline_le_len(s.drop_first());
    }
}

/// A scan that saw no newline in the first `p` characters bounds the
/// first newline from below.
proof fn lemma_first_newline_past(s: Seq<char>, p: int)
    requires
        0 <= p <= s.len(),
        forall|j: int| 0 <= j < p ==> s[j] != '\n',
    ensures
        first_newline(s) >= p,
    decreases p,
{
    if p > 0 {
        assert(s[0] != '\n');
        let rest = s.drop_first();
        assert forall|j: int| 0 <= j < p - 1 implies rest[j] != '\n' by {
            assert(rest[j] == s[j + 1]);
        }
        lemma_first_newline_past(rest, p - 1);
    } else {
        lemma_first_newline_le_len(s);
    }
}

/// A newline at `p` with none before it is the first newline.
proof fn lemma_first_newline_at(s: Seq<char>, p: int)
    requires
        0 <= p < s.len(),
        forall|j: int| 0 <= j < p ==> s[j] != '\n',
        s[p] == '\n',
    ensures
        first_newline(s) == p,
    decreases p,
{
    if p == 0 {
    } else {
        lemma_first_newline_at(s.drop_first(), p - 1);
    }
}

/// Builds the text the editor opens on.
pub fn compose_edit_text(title: &str, body: &str) -> (r: String)
    ensures
        r@ == composed_text(title@, body@),
{
    proof {
        reveal_strlit("\n\n");
        assert("\n\n"@ =~= seq!['\n', '\n']);
    }
    let text = String::from_str(title).concat("\n\n").concat(body);
    proof {
        assert(text@ =~= composed_text(title@, body@));
    }
    text
}

/// Splits an edited text into the new title and the new body.
pub fn split_edited_text(text: &str) -> (r: (String, String))
    ensures
        r.0@ == edited_title(text@),
        r.1@ == edited_body(text@),
{
    let n = text.unicode_len();
    let mut p: usize = 0;
    let mut found = false;
    while p < n && !found
        invariant
            p <= n,
            n == text@.len(),
            forall|j: int| 0 <= j < p ==> text@[j] != '\n',
            found ==> p < n && text@[p as int] == '\n',
        decreases n - p, (if found { 0int } else { 1int }),
    {
        if text.get_char(p) == '\n' {
            found = true;
        } else {
            p += 1;
        }
    }
    proof {
        lemma_first_newline_le_len(text@);
        if found {
            lemma_first_newline_at(text@, p as int);
        } else {
            lemma_first_newline_past(text@, p as int);
        }
    }
    if !found {
        let title = text.to_owned();
        proof {
            assert(edited_title(text@) =~= text@);
        }
        return (title, String::new());
    }
    let title = text.substring_char(0, p).to_owned();
    proof {
        assert(text@.subrange(0, p as int) =~= edited_title(text@));
    }
    let body_start: usize = if p + 1 < n && text.get_char(p + 1) == '\n' {
        p + 2
    } else {
        p + 1
    };
    let body = text.substring_char(body_start, n).to_owned();
    proof {
        assert(text@.subrange(body_start as int, n as int) =~= edited_body(text@));
    }
    (title, body)
}

/// Applies an edited text to an issue: the first line becomes the title
/// and the remainder, less the blank separator, the body; everything else
/// is kept.
pub fn apply_edited_text(issue: Issue, text: &str) -> (r: Issue)
    ensures
        r.number == issue.number,
        r.title@ == edited_title(text@),
        r.body@ == edited_body(text@),
        r.state == issue.state,
        r.labels == issue.labels,
        r.pull_request == issue.pull_request,
{
    let (title, body) = split_edited_text(text);
    Issue {
        number: issue.number,
        title,
        body,
        state: issue.state,
        labels: issue.labels,
        pull_request: issue.pull_request,
    }
}

/// Round trip: a text composed from a newline-free title and any body
/// splits back into exactly that title and that body.
pub proof fn lemma_edit_round_trip(title: Seq<char>, body: Seq<char>)
    requires
        forall|i: int| 0 <= i < title.len() ==> title[i] != '\n',
    ensures
        edited_title(composed_text(title, body)) == title,
        edited_body(composed_text(title, body)) == body,
{
    let s = composed_text(title, body);
    assert(s[title.len() as int] == '\n');
    assert forall|j: int| 0 <= j < title.len() implies s[j] != '\n' by {
        assert(s[j] == title[j]);
    }
    lemma_first_newline_at(s, title.len() as int);
    assert(edited_title(s) =~= title);
    let rest = s.skip(title.len() as int + 1);
    assert(rest[0] == '\n');
    assert(rest.skip(1) =~= body);
    assert(edited_body(s) == body);
}

} // verus!
