//! The decisions of the commands: what to filter by, which labels an
//! issue ends up with, what to report. The commands themselves fetch,
//! prompt and print around these.

use vstd::prelude::*;
use vstd::string::*;
use crate::api::candidate::opt_chars;
use crate::api::types::{opt_text, Issue, MutationResult, User};
use crate::output::text_or;
use crate::text::{str_eq, texts, trimmed};

verus! {

/// Whose issues a listing shows: those of the given assignee; else the
/// viewer's where `mine` is set; else everybody's where that was asked for
/// or a team was named; else, with no flag at all, the viewer's.
pub open spec fn listed_assignee(
    assignee: Option<Seq<char>>,
    mine: bool,
    all_assignees: bool,
    has_team: bool,
) -> Option<Seq<char>> {
    match assignee {
        Some(name) => Some(name),
        None => if mine {
            Some("me"@)
        } else if all_assignees || has_team {
            None
        } else {
            Some("me"@)
        },
    }
}

/// Whose issues a listing shows, as a user reference to resolve.
pub fn list_assignee<'a>(assignee: Option<&'a str>, mine: bool, all_assignees: bool, has_team: bool) -> (r:
    Option<&'a str>)
    ensures
        opt_chars(r) == listed_assignee(
            opt_chars(assignee),
            mine,
            all_assignees,
            has_team,
        ),
{
    match assignee {
        Some(name) => Some(name),
        None => if mine {
            Some("me")
        } else if all_assignees || has_team {
            None
        } else {
            Some("me")
        },
    }
}

/// Which workflow states a listing shows.
#[derive(Debug)]
pub enum StateFilter {
    /// The states of this name, ignoring case.
    Named(String),
    /// Every state that is neither completed nor canceled.
    Open,
    /// Every state.
    Any,
}

/// Which workflow states a listing shows: the named one; else the open
/// ones, unless all were asked for.
pub fn list_state_filter(state: Option<&str>, all: bool) -> (r: StateFilter)
    ensures
        match state {
            Some(name) => r matches StateFilter::Named(n) && n@ == name@,
            None => if all {
                r is Any
            } else {
                r is Open
            },
        },
{
    match state {
        Some(name) => StateFilter::Named(String::from_str(name)),
        None => if all {
            StateFilter::Any
        } else {
            StateFilter::Open
        },
    }
}

/// The identifier is among the identifiers.
pub open spec fn holds(ids: Seq<String>, id: Seq<char>) -> bool {
    exists|i: int| 0 <= i < ids.len() && (#[trigger] ids[i])@ == id
}

/// The identifiers other than `id`, in order.
pub open spec fn without(ids: Seq<String>, id: Seq<char>) -> Seq<String> {
    ids.filter(|s: String| s@ != id)
}

fn has_label(ids: &Vec<String>, id: &str) -> (r: bool)
    ensures
        r == holds(ids@, id@),
{
    let mut i: usize = 0;
    while i < ids.len()
        invariant
            i <= ids.len(),
            forall|j: int| 0 <= j < i ==> (#[trigger] ids@[j])@ != id@,
        decreases ids.len() - i,
    {
        if str_eq(ids[i].as_str(), id) {
            return true;
        }
        i += 1;
    }
    false
}

/// Adds a label to those of an issue unless it is there already.
pub fn add_label(ids: &mut Vec<String>, id: String)
    ensures
        final(ids)@ == if holds(old(ids)@, id@) {
            old(ids)@
        } else {
            old(ids)@.push(id)
        },
{
    if !has_label(ids, id.as_str()) {
        ids.push(id);
    }
}

/// Takes a label off those of an issue, wherever it stands among them;
/// the others keep their order.
pub fn remove_label(ids: &mut Vec<String>, id: &str)
    ensures
        final(ids)@ == without(old(ids)@, id@),
        !holds(final(ids)@, id@),
{
    let mut kept: Vec<String> = Vec::new();
    let mut i: usize = 0;
    let ghost other = |s: String| s@ != id@;
    proof {
        assert(ids@.take(0).filter(other) =~= Seq::<String>::empty()) by {
            reveal(Seq::filter);
        }
    }
    while i < ids.len()
        invariant
            i <= ids.len(),
            *ids == *old(ids),
            other == |s: String| s@ != id@,
            kept@ == ids@.take(i as int).filter(other),
            forall|j: int| 0 <= j < kept@.len() ==> (#[trigger] kept@[j])@ != id@,
        decreases ids.len() - i,
    {
        proof {
            assert(ids@.take(i + 1) == ids@.take(i as int).push(ids@[i as int]));
            ids@.take(i as int).lemma_filter_push(ids@[i as int], other);
        }
        if !str_eq(ids[i].as_str(), id) {
            kept.push(ids[i].clone());
        }
        i += 1;
    }
    proof {
        assert(ids@.take(ids@.len() as int) == ids@);
    }
    *ids = kept;
}

/// Whether an update has to read the issue first: for its team, to
/// resolve a state; for its labels, to add to them or take from them.
pub fn needs_issue_context(has_state: bool, adds_labels: bool, removes_labels: bool) -> (r: bool)
    ensures
        r == (has_state || adds_labels || removes_labels),
{
    has_state || adds_labels || removes_labels
}

/// What an update without any change is told.
pub fn no_updates() -> (r: &'static str)
    ensures
        r@ == "No updates specified. Use --title, --description, --priority, --state, --assignee, --add-label, --remove-label, or --clear-labels."@,
{
    "No updates specified. Use --title, --description, --priority, --state, --assignee, --add-label, --remove-label, or --clear-labels."
}

/// What an issue is called in a report: its identifier, else its id.
pub open spec fn reported_name(issue: Issue) -> Seq<char> {
    match issue.identifier {
        Some(identifier) => identifier@,
        None => issue.id@,
    }
}

fn name_of(issue: &Issue) -> (r: &str)
    ensures
        r@ == reported_name(*issue),
{
    match &issue.identifier {
        Some(identifier) => identifier.as_str(),
        None => issue.id.as_str(),
    }
}

/// What a mutation reports, as mathematics.
pub enum Report {
    /// The mutation failed.
    Failed,
    /// The mutation succeeded; the lines to print, none where the service
    /// returned no issue.
    Done(Seq<Seq<char>>),
}

/// What a mutation reports.
#[derive(Debug)]
pub enum MutationReport {
    Failed,
    Done(Vec<String>),
}

impl View for MutationReport {
    type V = Report;

    open spec fn view(&self) -> Report {
        match *self {
            MutationReport::Failed => Report::Failed,
            MutationReport::Done(lines) => Report::Done(texts(lines@)),
        }
    }
}

/// The report of a creation: the issue's name and title, and its URL on a
/// line of its own where it has one.
pub open spec fn creation_report(result: MutationResult) -> Report {
    if !result.success {
        Report::Failed
    } else {
        match result.issue {
            Some(issue) => {
                let first = "Created "@ + reported_name(issue) + ": "@ + text_or(
                    issue.title,
                    ""@,
                );
                if text_or(issue.url, ""@).len() > 0 {
                    Report::Done(seq![first, issue.url->0@])
                } else {
                    Report::Done(seq![first])
                }
            },
            None => Report::Done(Seq::empty()),
        }
    }
}

/// The report of a change: the issue's name, followed by `suffix`.
pub open spec fn change_report(result: MutationResult, prefix: Seq<char>, suffix: Seq<char>) -> Report {
    if !result.success {
        Report::Failed
    } else {
        match result.issue {
            Some(issue) => Report::Done(seq![prefix + reported_name(issue) + suffix]),
            None => Report::Done(Seq::empty()),
        }
    }
}

/// Reports the creation of an issue.
pub fn created(result: &MutationResult) -> (r: MutationReport)
    ensures
        r@ == creation_report(*result),
{
    if !result.success {
        return MutationReport::Failed;
    }
    match &result.issue {
        Some(issue) => {
            let mut first = String::from_str("Created ");
            first.append(name_of(issue));
            first.append(": ");
            match &issue.title {
                Some(title) => first.append(title.as_str()),
                None => {
                    proof {
                        reveal_strlit("");
                        assert(first@ + ""@ =~= first@);
                    }
                },
            }
            let mut lines: Vec<String> = vec![first];
            match &issue.url {
                Some(url) => {
                    if !url.as_str().is_empty() {
                        lines.push(url.clone());
                    }
                },
                None => {},
            }
            proof {
                reveal_strlit("");
                match creation_report(*result) {
                    Report::Done(expected) => {
                        assert(texts(lines@) =~= expected);
                    },
                    Report::Failed => {},
                }
            }
            MutationReport::Done(lines)
        },
        None => {
            let lines: Vec<String> = Vec::new();
            proof {
                assert(texts(lines@) =~= Seq::<Seq<char>>::empty());
            }
            MutationReport::Done(lines)
        },
    }
}

/// Reports a change to an issue: `prefix`, the issue's name, `suffix`.
pub fn changed(result: &MutationResult, prefix: &str, suffix: &str) -> (r: MutationReport)
    ensures
        r@ == change_report(*result, prefix@, suffix@),
{
    if !result.success {
        return MutationReport::Failed;
    }
    match &result.issue {
        Some(issue) => {
            let mut line = String::from_str(prefix);
            line.append(name_of(issue));
            line.append(suffix);
            let lines: Vec<String> = vec![line];
            proof {
                assert(texts(lines@) =~= seq![prefix@ + reported_name(*issue) + suffix@]);
            }
            MutationReport::Done(lines)
        },
        None => {
            let lines: Vec<String> = Vec::new();
            proof {
                assert(texts(lines@) =~= Seq::<Seq<char>>::empty());
            }
            MutationReport::Done(lines)
        },
    }
}

/// The key that the user entered: as typed where it was typed at a
/// prompt, trimmed where it was read from a file or a pipe; none where
/// nothing is left of it.
pub open spec fn entered_key(raw: Seq<char>, typed: bool) -> Option<Seq<char>> {
    let key = if typed {
        raw
    } else {
        trimmed(raw)
    };
    if key.len() == 0 {
        None
    } else {
        Some(key)
    }
}

/// Takes the API key out of what the user entered.
pub fn api_key_entry(raw: &str, typed: bool) -> (r: Option<String>)
    ensures
        opt_text(r) == entered_key(raw@, typed),
{
    let key = if typed {
        raw
    } else {
        raw.trim()
    };
    if key.is_empty() {
        None
    } else {
        Some(String::from_str(key))
    }
}

/// What a user is called: the display name, else the name, else `fallback`.
pub open spec fn called(user: User, fallback: Seq<char>) -> Seq<char> {
    match user.display_name {
        Some(display) => display@,
        None => text_or(user.name, fallback),
    }
}

fn name_or<'a>(user: &'a User, fallback: &'a str) -> (r: &'a str)
    ensures
        r@ == called(*user, fallback@),
{
    match &user.display_name {
        Some(display) => display.as_str(),
        None => match &user.name {
            Some(name) => name.as_str(),
            None => fallback,
        },
    }
}

/// The line that confirms an authentication.
pub fn authenticated_as(viewer: &User) -> (r: String)
    ensures
        r@ == "Authenticated as "@ + called(*viewer, "Unknown"@),
{
    let mut line = String::from_str("Authenticated as ");
    line.append(name_or(viewer, "Unknown"));
    line
}

/// The lines that show the viewer: name, email and identifier, with a dash
/// for a name or an email that is absent.
pub open spec fn viewer_report(viewer: User) -> Seq<Seq<char>> {
    seq![
        "Name:  "@ + called(viewer, "\u{2014}"@),
        "Email: "@ + text_or(viewer.email, "\u{2014}"@),
        "ID:    "@ + viewer.id@,
    ]
}

/// The lines that show the viewer.
pub fn viewer_lines(viewer: &User) -> (lines: Vec<String>)
    ensures
        texts(lines@) == viewer_report(*viewer),
{
    let mut name = String::from_str("Name:  ");
    name.append(name_or(viewer, "\u{2014}"));
    let mut email = String::from_str("Email: ");
    match &viewer.email {
        Some(address) => email.append(address.as_str()),
        None => email.append("\u{2014}"),
    }
    let mut id = String::from_str("ID:    ");
    id.append(viewer.id.as_str());
    let lines: Vec<String> = vec![name, email, id];
    proof {
        assert(texts(lines@) =~= viewer_report(*viewer));
    }
    lines
}

} // verus!
