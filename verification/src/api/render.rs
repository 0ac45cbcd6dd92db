//! The candidate renderer: a bounded, readable preview of the candidates
//! that compete for one reference.

use vstd::prelude::*;
use vstd::string::*;
use crate::api::candidate::{
    label_candidate, user_candidate, views, Candidate, CandidateRecord, EntityKind,
};
use crate::api::types::{Label, User};
use crate::text::{decimal, decimal_string, join, join_strings, texts};

verus! {

/// How many candidates a preview spells out before it only counts them.
pub const CANDIDATE_PREVIEW_LIMIT: usize = 5;

/// What a user is called: the display name, else the name, else `Unknown`.
pub open spec fn display_of(candidate: Candidate) -> Seq<char> {
    match candidate.display_name {
        Some(display) => display,
        None => match candidate.name {
            Some(name) => name,
            None => "Unknown"@,
        },
    }
}

/// What any other entity is called: the name, else `Unnamed`.
pub open spec fn name_of(candidate: Candidate) -> Seq<char> {
    match candidate.name {
        Some(name) => name,
        None => "Unnamed"@,
    }
}

/// One candidate as a preview shows it. A user is shown with the email in
/// angle brackets where there is a non-empty one; every other kind with the
/// identifier in square brackets, since names may collide.
pub open spec fn render_one(candidate: Candidate) -> Seq<char> {
    if candidate.kind == EntityKind::User {
        match candidate.email {
            Some(email) => if email.len() > 0 {
                display_of(candidate) + " <"@ + email + ">"@
            } else {
                display_of(candidate)
            },
            None => display_of(candidate),
        }
    } else {
        name_of(candidate) + " ["@ + candidate.id + "]"@
    }
}

/// Each candidate as a preview shows it, in order.
pub open spec fn rendered(candidates: Seq<Candidate>) -> Seq<Seq<char>> {
    candidates.map_values(|c: Candidate| render_one(c))
}

/// The preview of a set of candidates: all of them, separated by commas,
/// or the first [`CANDIDATE_PREVIEW_LIMIT`] followed by the count of the rest.
pub open spec fn preview(candidates: Seq<Candidate>) -> Seq<char> {
    if candidates.len() > CANDIDATE_PREVIEW_LIMIT {
        join(rendered(candidates.take(CANDIDATE_PREVIEW_LIMIT as int)), ", "@) + " (+"@ + decimal(
            (candidates.len() - CANDIDATE_PREVIEW_LIMIT) as nat,
        ) + " more)"@
    } else {
        join(rendered(candidates), ", "@)
    }
}

/// The candidates that a slice of borrowed users stands for.
pub open spec fn borrowed_user_candidates(users: Seq<&User>) -> Seq<Candidate> {
    users.map_values(|u: &User| user_candidate(*u))
}

/// The candidates that a slice of borrowed labels stands for.
pub open spec fn borrowed_label_candidates(labels: Seq<&Label>) -> Seq<Candidate> {
    labels.map_values(|l: &Label| label_candidate(*l))
}

/// Renders one candidate.
pub fn render_candidate(record: &CandidateRecord) -> (r: String)
    ensures
        r@ == render_one(record@),
{
    if record.kind == EntityKind::User {
        let display = match record.display_name {
            Some(display) => display,
            None => match record.name {
                Some(name) => name,
                None => "Unknown",
            },
        };
        let mut out = String::from_str(display);
        match record.email {
            Some(email) => {
                if !email.is_empty() {
                    out.append(" <");
                    out.append(email);
                    out.append(">");
                }
            },
            None => {},
        }
        out
    } else {
        let name = match record.name {
            Some(name) => name,
            None => "Unnamed",
        };
        let mut out = String::from_str(name);
        out.append(" [");
        out.append(record.id);
        out.append("]");
        out
    }
}

/// Renders the preview of a set of candidates. The cap is on the text
/// alone: the caller still holds every candidate.
pub fn render(candidates: &[CandidateRecord]) -> (r: String)
    ensures
        r@ == preview(views(candidates@)),
{
    let total = candidates.len();
    let shown = if total > CANDIDATE_PREVIEW_LIMIT {
        CANDIDATE_PREVIEW_LIMIT
    } else {
        total
    };
    let mut parts: Vec<String> = Vec::new();
    let mut i: usize = 0;
    proof {
        assert(rendered(views(candidates@).take(0)) == Seq::<Seq<char>>::empty());
        assert(texts(parts@) == Seq::<Seq<char>>::empty());
    }
    while i < shown
        invariant
            i <= shown <= candidates.len(),
            texts(parts@) == rendered(views(candidates@).take(i as int)),
        decreases shown - i,
    {
        let part = render_candidate(&candidates[i]);
        proof {
            let all = views(candidates@);
            assert(all.take(i + 1) == all.take(i as int).push(candidates@[i as int]@));
            assert(rendered(all.take(i as int).push(candidates@[i as int]@)) == rendered(
                all.take(i as int),
            ).push(part@));
            assert(texts(parts@.push(part)) == texts(parts@).push(part@));
        }
        parts.push(part);
        i += 1;
    }
    let mut out = join_strings(&parts, ", ");
    if total > CANDIDATE_PREVIEW_LIMIT {
        let extra = decimal_string(total - CANDIDATE_PREVIEW_LIMIT);
        out.append(" (+");
        out.append(extra.as_str());
        out.append(" more)");
    } else {
        proof {
            assert(views(candidates@).take(total as int) == views(candidates@));
        }
    }
    out
}

/// Renders the preview of a set of competing users.
pub fn render_user_candidates(users: &[&User]) -> (r: String)
    ensures
        r@ == preview(borrowed_user_candidates(users@)),
{
    let mut records: Vec<CandidateRecord> = Vec::new();
    let mut i: usize = 0;
    while i < users.len()
        invariant
            i <= users.len(),
            views(records@) == borrowed_user_candidates(users@.take(i as int)),
        decreases users.len() - i,
    {
        let record = CandidateRecord::of_user(users[i]);
        proof {
            assert(users@.take(i + 1) == users@.take(i as int).push(users@[i as int]));
            assert(views(records@.push(record)) == views(records@).push(record@));
            assert(borrowed_user_candidates(users@.take(i as int).push(users@[i as int]))
                == borrowed_user_candidates(users@.take(i as int)).push(
                user_candidate(*users@[i as int]),
            ));
        }
        records.push(record);
        i += 1;
    }
    proof {
        assert(users@.take(users@.len() as int) == users@);
    }
    render(records.as_slice())
}

/// Renders the preview of a set of competing labels.
pub fn render_label_candidates(labels: &[&Label]) -> (r: String)
    ensures
        r@ == preview(borrowed_label_candidates(labels@)),
{
    let mut records: Vec<CandidateRecord> = Vec::new();
    let mut i: usize = 0;
    while i < labels.len()
        invariant
            i <= labels.len(),
            views(records@) == borrowed_label_candidates(labels@.take(i as int)),
        decreases labels.len() - i,
    {
        let record = CandidateRecord::of_label(labels[i]);
        proof {
            assert(labels@.take(i + 1) == labels@.take(i as int).push(labels@[i as int]));
            assert(views(records@.push(record)) == views(records@).push(record@));
            assert(borrowed_label_candidates(labels@.take(i as int).push(labels@[i as int]))
                == borrowed_label_candidates(labels@.take(i as int)).push(
                label_candidate(*labels@[i as int]),
            ));
        }
        records.push(record);
        i += 1;
    }
    proof {
        assert(labels@.take(labels@.len() as int) == labels@);
    }
    render(records.as_slice())
}

} // verus!
