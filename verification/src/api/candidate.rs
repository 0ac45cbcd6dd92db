//! Candidate records: what the matcher sees of a team, a user, a workflow
//! state or a label.

use vstd::prelude::*;
use crate::api::types::{opt_str, opt_text, Label, Team, User, WorkflowState};

verus! {

/// The kinds of entity that a reference can name.
#[derive(Clone, Copy, Debug, PartialEq, Eq, Structural)]
pub enum EntityKind {
    Team,
    User,
    WorkflowState,
    Label,
}

/// One entity of a fetched snapshot: its kind, its identifier and the
/// fields that can be searched. A kind leaves the fields it lacks empty.
#[derive(Clone, Copy, Debug)]
pub struct CandidateRecord<'a> {
    pub kind: EntityKind,
    pub id: &'a str,
    pub key: Option<&'a str>,
    pub name: Option<&'a str>,
    pub display_name: Option<&'a str>,
    pub email: Option<&'a str>,
}

/// The mathematical content of a [`CandidateRecord`].
pub struct Candidate {
    pub kind: EntityKind,
    pub id: Seq<char>,
    pub key: Option<Seq<char>>,
    pub name: Option<Seq<char>>,
    pub display_name: Option<Seq<char>>,
    pub email: Option<Seq<char>>,
}

/// The characters of a borrowed text that may be absent.
pub open spec fn opt_chars(value: Option<&str>) -> Option<Seq<char>> {
    match value {
        Some(s) => Some(s@),
        None => None,
    }
}

impl<'a> View for CandidateRecord<'a> {
    type V = Candidate;

    open spec fn view(&self) -> Candidate {
        Candidate {
            kind: self.kind,
            id: self.id@,
            key: opt_chars(self.key),
            name: opt_chars(self.name),
            display_name: opt_chars(self.display_name),
            email: opt_chars(self.email),
        }
    }
}

/// The contents of a sequence of records, in the same order.
pub open spec fn views<'a>(records: Seq<CandidateRecord<'a>>) -> Seq<Candidate> {
    records.map_values(|c: CandidateRecord<'a>| c@)
}

/// The identifiers of a sequence of candidates, in the same order.
pub open spec fn ids(candidates: Seq<Candidate>) -> Seq<Seq<char>> {
    candidates.map_values(|c: Candidate| c.id)
}

pub open spec fn team_candidate(team: Team) -> Candidate {
    Candidate {
        kind: EntityKind::Team,
        id: team.id@,
        key: opt_text(team.key),
        name: opt_text(team.name),
        display_name: None,
        email: None,
    }
}

pub open spec fn user_candidate(user: User) -> Candidate {
    Candidate {
        kind: EntityKind::User,
        id: user.id@,
        key: None,
        name: opt_text(user.name),
        display_name: opt_text(user.display_name),
        email: opt_text(user.email),
    }
}

pub open spec fn state_candidate(state: WorkflowState) -> Candidate {
    Candidate {
        kind: EntityKind::WorkflowState,
        id: state.id@,
        key: None,
        name: opt_text(state.name),
        display_name: None,
        email: None,
    }
}

pub open spec fn label_candidate(label: Label) -> Candidate {
    Candidate {
        kind: EntityKind::Label,
        id: label.id@,
        key: None,
        name: opt_text(label.name),
        display_name: None,
        email: None,
    }
}

pub open spec fn team_candidates(teams: Seq<Team>) -> Seq<Candidate> {
    teams.map_values(|t: Team| team_candidate(t))
}

pub open spec fn user_candidates(users: Seq<User>) -> Seq<Candidate> {
    users.map_values(|u: User| user_candidate(u))
}

pub open spec fn state_candidates(states: Seq<WorkflowState>) -> Seq<Candidate> {
    states.map_values(|s: WorkflowState| state_candidate(s))
}

pub open spec fn label_candidates(labels: Seq<Label>) -> Seq<Candidate> {
    labels.map_values(|l: Label| label_candidate(l))
}

impl<'a> CandidateRecord<'a> {
    pub fn of_team(team: &'a Team) -> (r: CandidateRecord<'a>)
        ensures
            r@ == team_candidate(*team),
    {
        CandidateRecord {
            kind: EntityKind::Team,
            id: team.id.as_str(),
            key: opt_str(&team.key),
            name: opt_str(&team.name),
            display_name: None,
            email: None,
        }
    }

    pub fn of_user(user: &'a User) -> (r: CandidateRecord<'a>)
        ensures
            r@ == user_candidate(*user),
    {
        CandidateRecord {
            kind: EntityKind::User,
            id: user.id.as_str(),
            key: None,
            name: opt_str(&user.name),
            display_name: opt_str(&user.display_name),
            email: opt_str(&user.email),
        }
    }

    pub fn of_state(state: &'a WorkflowState) -> (r: CandidateRecord<'a>)
        ensures
            r@ == state_candidate(*state),
    {
        CandidateRecord {
            kind: EntityKind::WorkflowState,
            id: state.id.as_str(),
            key: None,
            name: opt_str(&state.name),
            display_name: None,
            email: None,
        }
    }

    pub fn of_label(label: &'a Label) -> (r: CandidateRecord<'a>)
        ensures
            r@ == label_candidate(*label),
    {
        CandidateRecord {
            kind: EntityKind::Label,
            id: label.id.as_str(),
            key: None,
            name: opt_str(&label.name),
            display_name: None,
            email: None,
        }
    }
}

/// The records of a page of teams, in the order of the page.
pub fn team_records<'a>(teams: &'a [Team]) -> (records: Vec<CandidateRecord<'a>>)
    ensures
        views(records@) == team_candidates(teams@),
{
    let mut records: Vec<CandidateRecord<'a>> = Vec::new();
    let mut i: usize = 0;
    while i < teams.len()
        invariant
            i <= teams.len(),
            views(records@) == team_candidates(teams@.take(i as int)),
        decreases teams.len() - i,
    {
        let record = CandidateRecord::of_team(&teams[i]);
        proof {
            assert(teams@.take(i + 1) == teams@.take(i as int).push(teams@[i as int]));
            assert(views(records@.push(record)) == views(records@).push(record@));
            assert(team_candidates(teams@.take(i as int).push(teams@[i as int]))
                == team_candidates(teams@.take(i as int)).push(team_candidate(teams@[i as int])));
        }
        records.push(record);
        i += 1;
    }
    proof {
        assert(teams@.take(teams@.len() as int) == teams@);
    }
    records
}

/// The records of a page of users, in the order of the page.
pub fn user_records<'a>(users: &'a [User]) -> (records: Vec<CandidateRecord<'a>>)
    ensures
        views(records@) == user_candidates(users@),
{
    let mut records: Vec<CandidateRecord<'a>> = Vec::new();
    let mut i: usize = 0;
    while i < users.len()
        invariant
            i <= users.len(),
            views(records@) == user_candidates(users@.take(i as int)),
        decreases users.len() - i,
    {
        let record = CandidateRecord::of_user(&users[i]);
        proof {
            assert(users@.take(i + 1) == users@.take(i as int).push(users@[i as int]));
            assert(views(records@.push(record)) == views(records@).push(record@));
            assert(user_candidates(users@.take(i as int).push(users@[i as int]))
                == user_candidates(users@.take(i as int)).push(user_candidate(users@[i as int])));
        }
        records.push(record);
        i += 1;
    }
    proof {
        assert(users@.take(users@.len() as int) == users@);
    }
    records
}

/// The records of a page of workflow states, in the order of the page.
pub fn state_records<'a>(states: &'a [WorkflowState]) -> (records: Vec<CandidateRecord<'a>>)
    ensures
        views(records@) == state_candidates(states@),
{
    let mut records: Vec<CandidateRecord<'a>> = Vec::new();
    let mut i: usize = 0;
    while i < states.len()
        invariant
            i <= states.len(),
            views(records@) == state_candidates(states@.take(i as int)),
        decreases states.len() - i,
    {
        let record = CandidateRecord::of_state(&states[i]);
        proof {
            assert(states@.take(i + 1) == states@.take(i as int).push(states@[i as int]));
            assert(views(records@.push(record)) == views(records@).push(record@));
            assert(state_candidates(states@.take(i as int).push(states@[i as int]))
                == state_candidates(states@.take(i as int)).push(state_candidate(states@[i as int])));
        }
        records.push(record);
        i += 1;
    }
    proof {
        assert(states@.take(states@.len() as int) == states@);
    }
    records
}

/// The records of a page of labels, in the order of the page.
pub fn label_records<'a>(labels: &'a [Label]) -> (records: Vec<CandidateRecord<'a>>)
    ensures
        views(records@) == label_candidates(labels@),
{
    let mut records: Vec<CandidateRecord<'a>> = Vec::new();
    let mut i: usize = 0;
    while i < labels.len()
        invariant
            i <= labels.len(),
            views(records@) == label_candidates(labels@.take(i as int)),
        decreases labels.len() - i,
    {
        let record = CandidateRecord::of_label(&labels[i]);
        proof {
            assert(labels@.take(i + 1) == labels@.take(i as int).push(labels@[i as int]));
            assert(views(records@.push(record)) == views(records@).push(record@));
            assert(label_candidates(labels@.take(i as int).push(labels@[i as int]))
                == label_candidates(labels@.take(i as int)).push(label_candidate(labels@[i as int])));
        }
        records.push(record);
        i += 1;
    }
    proof {
        assert(labels@.take(labels@.len() as int) == labels@);
    }
    records
}

} // verus!
