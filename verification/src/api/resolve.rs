//! The resolver: from a human reference and a fetched snapshot to one
//! identifier, or to a failure that says why there is none.
//!
//! A resolution never fetches. For a team key or a workflow state name
//! the caller fetches the snapshot and hands it to [`team_id`] or
//! [`state_id`]. A user reference or a label name first goes through
//! [`user_request`] or [`label_request`], which refuses it or says what to
//! fetch; only the query that such a request hands out can be put to
//! [`user_id`] or [`label_id`].

use vstd::prelude::*;
use vstd::string::*;
use crate::api::candidate::{
    ids, label_candidates, label_records, state_candidates, state_records, team_candidates,
    team_records, user_candidates, user_records, views, Candidate, CandidateRecord, EntityKind,
};
use crate::api::matcher::{matches_of, matching, tiers, tiers_of, MatchTier};
use crate::api::render::{preview, render, rendered, CANDIDATE_PREVIEW_LIMIT};
use crate::api::types::{Label, Team, User, WorkflowState};
use crate::text::{
    ascii_lower, ascii_lowercase, decimal, is_blank, is_whitespace, join, lemma_ascii_lower_letter,
    lemma_trimmed_empty_iff_blank, same_ignoring_ascii_case, texts, trimmed,
};

verus! {

/// How many users or labels one resolution asks the directory for.
pub const LOOKUP_LIMIT: i32 = 250;

/// What the tiers make of a query, as mathematics.
pub enum Resolution {
    /// Exactly one candidate matched in the first tier that matched at all.
    Resolved(Seq<char>),
    /// That tier matched two candidates or more: all of them, in order.
    Ambiguous { tier: MatchTier, candidates: Seq<Candidate> },
    /// No tier matched any candidate.
    NotFound,
}

/// What the tiers make of a query.
#[derive(Debug)]
pub enum ResolutionOutcome<'a> {
    Resolved(&'a str),
    Ambiguous { tier: MatchTier, candidates: Vec<CandidateRecord<'a>> },
    NotFound,
}

impl<'a> View for ResolutionOutcome<'a> {
    type V = Resolution;

    open spec fn view(&self) -> Resolution {
        match *self {
            ResolutionOutcome::Resolved(id) => Resolution::Resolved(id@),
            ResolutionOutcome::Ambiguous { tier, candidates } => Resolution::Ambiguous {
                tier,
                candidates: views(candidates@),
            },
            ResolutionOutcome::NotFound => Resolution::NotFound,
        }
    }
}

/// The reduction of one tier's matches: none passes the query on to the
/// next tier, one resolves it, more make it ambiguous.
pub open spec fn reduce(tier: MatchTier, hits: Seq<Candidate>) -> Option<Resolution> {
    if hits.len() == 0 {
        None
    } else if hits.len() == 1 {
        Some(Resolution::Resolved(hits[0].id))
    } else {
        Some(Resolution::Ambiguous { tier, candidates: hits })
    }
}

/// The tiers tried in order: the first with any match decides.
pub open spec fn resolution(tiers: Seq<MatchTier>, query: Seq<char>, candidates: Seq<Candidate>) -> Resolution
    decreases tiers.len(),
{
    if tiers.len() == 0 {
        Resolution::NotFound
    } else {
        match reduce(tiers.first(), matches_of(tiers.first(), query, candidates)) {
            Some(decided) => decided,
            None => resolution(tiers.drop_first(), query, candidates),
        }
    }
}

/// Why a reference has no identifier, as mathematics.
pub enum Failure {
    Validation { message: Seq<char> },
    NotFound { message: Seq<char> },
    Ambiguous { candidates: Seq<Seq<char>>, message: Seq<char> },
}

/// Why a reference has no identifier.
#[derive(Debug)]
pub enum ResolveError {
    /// The query is empty once trimmed. Nothing was fetched for it.
    Validation { message: String },
    /// No candidate survived any tier.
    NotFound { message: String },
    /// Two candidates or more survived the first tier that matched. The
    /// identifiers are those of all of them; the message previews a few.
    Ambiguous { candidates: Vec<String>, message: String },
}

impl View for ResolveError {
    type V = Failure;

    open spec fn view(&self) -> Failure {
        match *self {
            ResolveError::Validation { message } => Failure::Validation { message: message@ },
            ResolveError::NotFound { message } => Failure::NotFound { message: message@ },
            ResolveError::Ambiguous { candidates, message } => Failure::Ambiguous {
                candidates: texts(candidates@),
                message: message@,
            },
        }
    }
}

impl ResolveError {
    /// The text to show the user.
    pub fn message(&self) -> (r: &str)
        ensures
            r@ == match self@ {
                Failure::Validation { message } => message,
                Failure::NotFound { message } => message,
                Failure::Ambiguous { message, .. } => message,
            },
    {
        match self {
            ResolveError::Validation { message } => message.as_str(),
            ResolveError::NotFound { message } => message.as_str(),
            ResolveError::Ambiguous { message, .. } => message.as_str(),
        }
    }
}

/// The mathematical content of a resolver's answer.
pub open spec fn answer(r: Result<String, ResolveError>) -> Result<Seq<char>, Failure> {
    match r {
        Ok(id) => Ok(id@),
        Err(e) => Err(e@),
    }
}

/// What an empty query of a kind is told.
pub open spec fn empty_message(kind: EntityKind) -> Seq<char> {
    match kind {
        EntityKind::Team => "Team cannot be empty"@,
        EntityKind::User => "User cannot be empty"@,
        EntityKind::WorkflowState => "State cannot be empty"@,
        EntityKind::Label => "Label cannot be empty"@,
    }
}

/// What a query that names nothing is told.
pub open spec fn not_found_message(kind: EntityKind, query: Seq<char>) -> Seq<char> {
    match kind {
        EntityKind::Team => "Team '"@ + query + "' not found"@,
        EntityKind::User => "User '"@ + query + "' not found"@,
        EntityKind::WorkflowState => "State '"@ + query + "' not found for this team"@,
        EntityKind::Label => "Label '"@ + query + "' not found"@,
    }
}

/// What a query that names several candidates is told: the query, a
/// preview of the candidates, and what to do about it where the tier knows.
pub open spec fn ambiguous_message(tier: MatchTier, query: Seq<char>, shown: Seq<char>) -> Seq<char> {
    match tier {
        MatchTier::TeamKey => "Ambiguous team '"@ + query + "'. Matches: "@ + shown + "."@,
        MatchTier::UserExact | MatchTier::UserSubstring => "Ambiguous user '"@ + query
            + "'. Matches: "@ + shown + ". Use a full email for an exact target."@,
        MatchTier::StateName => "Ambiguous state '"@ + query + "'. Matches: "@ + shown + "."@,
        MatchTier::LabelExact => "Ambiguous label '"@ + query + "'. Matches: "@ + shown + "."@,
        MatchTier::LabelIgnoreCase => "Ambiguous label '"@ + query
            + "'. Multiple case-insensitive matches exist: "@ + shown + ". Use exact case."@,
    }
}

/// The answer that a resolution amounts to.
pub open spec fn outcome_answer(kind: EntityKind, query: Seq<char>, outcome: Resolution) -> Result<
    Seq<char>,
    Failure,
> {
    match outcome {
        Resolution::Resolved(id) => Ok(id),
        Resolution::Ambiguous { tier, candidates } => Err(
            Failure::Ambiguous {
                candidates: ids(candidates),
                message: ambiguous_message(tier, query, preview(candidates)),
            },
        ),
        Resolution::NotFound => Err(Failure::NotFound { message: not_found_message(kind, query) }),
    }
}

/// The answer for a query of a kind over a snapshot of candidates.
pub open spec fn resolved(kind: EntityKind, query: Seq<char>, candidates: Seq<Candidate>) -> Result<
    Seq<char>,
    Failure,
> {
    outcome_answer(kind, query, resolution(tiers_of(kind), query, candidates))
}

/// Runs the tiers of `kind` in order over the candidates and stops at the
/// first that matches any.
pub fn resolve<'a>(kind: EntityKind, query: &str, candidates: &[CandidateRecord<'a>]) -> (r:
    ResolutionOutcome<'a>)
    ensures
        r@ == resolution(tiers_of(kind), query@, views(candidates@)),
{
    let order = tiers(kind);
    let mut i: usize = 0;
    proof {
        assert(order@.skip(0) == order@);
    }
    while i < order.len()
        invariant
            i <= order.len(),
            order@ == tiers_of(kind),
            resolution(tiers_of(kind), query@, views(candidates@)) == resolution(
                order@.skip(i as int),
                query@,
                views(candidates@),
            ),
        decreases order.len() - i,
    {
        let tier = order[i];
        let hits = matching(query, candidates, tier);
        proof {
            assert(order@.skip(i as int).first() == tier);
            assert(order@.skip(i as int).drop_first() == order@.skip(i + 1));
        }
        if hits.len() == 1 {
            return ResolutionOutcome::Resolved(hits[0].id);
        } else if hits.len() >= 2 {
            return ResolutionOutcome::Ambiguous { tier, candidates: hits };
        }
        i += 1;
    }
    ResolutionOutcome::NotFound
}

fn empty_error(kind: EntityKind) -> (e: ResolveError)
    ensures
        e@ == (Failure::Validation { message: empty_message(kind) }),
{
    let message = match kind {
        EntityKind::Team => String::from_str("Team cannot be empty"),
        EntityKind::User => String::from_str("User cannot be empty"),
        EntityKind::WorkflowState => String::from_str("State cannot be empty"),
        EntityKind::Label => String::from_str("Label cannot be empty"),
    };
    ResolveError::Validation { message }
}

fn not_found_error(kind: EntityKind, query: &str) -> (e: ResolveError)
    ensures
        e@ == (Failure::NotFound { message: not_found_message(kind, query@) }),
{
    let mut message = match kind {
        EntityKind::Team => String::from_str("Team '"),
        EntityKind::User => String::from_str("User '"),
        EntityKind::WorkflowState => String::from_str("State '"),
        EntityKind::Label => String::from_str("Label '"),
    };
    message.append(query);
    match kind {
        EntityKind::WorkflowState => message.append("' not found for this team"),
        _ => message.append("' not found"),
    }
    ResolveError::NotFound { message }
}

fn ambiguous_error(tier: MatchTier, query: &str, candidates: &[CandidateRecord]) -> (e: ResolveError)
    ensures
        e@ == (Failure::Ambiguous {
            candidates: ids(views(candidates@)),
            message: ambiguous_message(tier, query@, preview(views(candidates@))),
        }),
{
    let mut message = match tier {
        MatchTier::TeamKey => String::from_str("Ambiguous team '"),
        MatchTier::UserExact => String::from_str("Ambiguous user '"),
        MatchTier::UserSubstring => String::from_str("Ambiguous user '"),
        MatchTier::StateName => String::from_str("Ambiguous state '"),
        MatchTier::LabelExact => String::from_str("Ambiguous label '"),
        MatchTier::LabelIgnoreCase => String::from_str("Ambiguous label '"),
    };
    message.append(query);
    match tier {
        MatchTier::LabelIgnoreCase => message.append(
            "'. Multiple case-insensitive matches exist: ",
        ),
        _ => message.append("'. Matches: "),
    }
    let shown = render(candidates);
    message.append(shown.as_str());
    match tier {
        MatchTier::UserExact => message.append(". Use a full email for an exact target."),
        MatchTier::UserSubstring => message.append(". Use a full email for an exact target."),
        MatchTier::LabelIgnoreCase => message.append(". Use exact case."),
        _ => message.append("."),
    }
    let mut found: Vec<String> = Vec::new();
    let mut i: usize = 0;
    while i < candidates.len()
        invariant
            i <= candidates.len(),
            texts(found@) == ids(views(candidates@).take(i as int)),
        decreases candidates.len() - i,
    {
        let id = String::from_str(candidates[i].id);
        proof {
            let all = views(candidates@);
            assert(all.take(i + 1) == all.take(i as int).push(candidates@[i as int]@));
            assert(ids(all.take(i as int).push(candidates@[i as int]@)) == ids(
                all.take(i as int),
            ).push(id@));
            assert(texts(found@.push(id)) == texts(found@).push(id@));
        }
        found.push(id);
        i += 1;
    }
    proof {
        assert(views(candidates@).take(candidates@.len() as int) == views(candidates@));
    }
    ResolveError::Ambiguous { candidates: found, message }
}

impl<'a> ResolutionOutcome<'a> {
    /// The identifier, or the failure with its message for a query of `kind`.
    pub fn into_result(self, kind: EntityKind, query: &str) -> (r: Result<String, ResolveError>)
        ensures
            answer(r) == outcome_answer(kind, query@, self@),
    {
        match self {
            ResolutionOutcome::Resolved(id) => Ok(String::from_str(id)),
            ResolutionOutcome::Ambiguous { tier, candidates } => Err(
                ambiguous_error(tier, query, candidates.as_slice()),
            ),
            ResolutionOutcome::NotFound => Err(not_found_error(kind, query)),
        }
    }
}

/// Resolves a team key over a page of teams.
pub fn team_id(teams: &[Team], key: &str) -> (r: Result<String, ResolveError>)
    ensures
        answer(r) == resolved(EntityKind::Team, key@, team_candidates(teams@)),
{
    let records = team_records(teams);
    resolve(EntityKind::Team, key, records.as_slice()).into_result(EntityKind::Team, key)
}

/// Resolves a workflow state name over the states of one team.
pub fn state_id(states: &[WorkflowState], name: &str) -> (r: Result<String, ResolveError>)
    ensures
        answer(r) == resolved(EntityKind::WorkflowState, name@, state_candidates(states@)),
{
    let records = state_records(states);
    resolve(EntityKind::WorkflowState, name, records.as_slice()).into_result(
        EntityKind::WorkflowState,
        name,
    )
}

/// The reserved reference `me`, in any case: the authenticated caller.
pub open spec fn is_sentinel(name: Seq<char>) -> bool {
    same_ignoring_ascii_case(name, "me"@)
}

/// What becomes of a user reference before anything is fetched.
pub enum UserPlan {
    /// The sentinel: the viewer answers, the directory is not asked.
    Viewer,
    /// Nothing is left of the reference once trimmed: it is refused.
    Refused,
    /// The directory is asked for a page of users.
    Directory,
}

/// The plan for a user reference. The sentinel is tested on the reference
/// as given, before it is trimmed and before it is tested for emptiness.
pub open spec fn user_plan(name: Seq<char>) -> UserPlan {
    if is_sentinel(name) {
        UserPlan::Viewer
    } else if trimmed(name).len() == 0 {
        UserPlan::Refused
    } else {
        UserPlan::Directory
    }
}

/// A user reference for the directory to answer. There is one only for a
/// reference that is neither the sentinel nor blank.
#[derive(Debug)]
pub struct UserQuery {
    name: String,
    text: String,
}

/// A label name for the directory to answer. There is one only for a name
/// that is not blank.
#[derive(Debug)]
pub struct LabelQuery {
    name: String,
    text: String,
}

/// What to fetch for a user reference.
#[derive(Debug)]
pub enum UserLookup {
    /// The authenticated caller, and nothing of the directory.
    Viewer,
    /// One page of users, to put the query to.
    Directory(UserQuery),
}

impl UserQuery {
    #[verifier::type_invariant]
    closed spec fn well_formed(self) -> bool {
        &&& user_plan(self.name@) == UserPlan::Directory
        &&& self.text@ == trimmed(self.name@)
    }

    /// The reference as the caller gave it.
    pub closed spec fn reference(self) -> Seq<char> {
        self.name@
    }

    /// The query put to the directory: the reference, trimmed. It is
    /// neither empty nor was the reference the sentinel.
    pub fn text(&self) -> (r: &str)
        ensures
            r@ == trimmed(self.reference()),
            r@.len() > 0,
            !is_sentinel(self.reference()),
    {
        proof {
            use_type_invariant(self);
        }
        self.text.as_str()
    }

    /// How many users to ask the directory for.
    pub fn first(&self) -> (r: i32)
        ensures
            r == LOOKUP_LIMIT,
    {
        LOOKUP_LIMIT
    }
}

impl LabelQuery {
    #[verifier::type_invariant]
    closed spec fn well_formed(self) -> bool {
        &&& self.text@ == trimmed(self.name@)
        &&& self.text@.len() > 0
    }

    /// The name as the caller gave it.
    pub closed spec fn reference(self) -> Seq<char> {
        self.name@
    }

    /// The query put to the directory: the name, trimmed. It is not empty.
    pub fn text(&self) -> (r: &str)
        ensures
            r@ == trimmed(self.reference()),
            r@.len() > 0,
    {
        proof {
            use_type_invariant(self);
        }
        self.text.as_str()
    }

    /// How many labels to ask the directory for.
    pub fn first(&self) -> (r: i32)
        ensures
            r == LOOKUP_LIMIT,
    {
        LOOKUP_LIMIT
    }
}

/// Decides what to fetch for a user reference, or refuses the reference
/// before anything is fetched.
pub fn user_request(name: &str) -> (r: Result<UserLookup, ResolveError>)
    ensures
        match user_plan(name@) {
            UserPlan::Viewer => r matches Ok(UserLookup::Viewer),
            UserPlan::Refused => r matches Err(e) && e@ == (Failure::Validation {
                message: empty_message(EntityKind::User),
            }),
            UserPlan::Directory => r matches Ok(UserLookup::Directory(query)) && query.reference()
                == name@,
        },
{
    if name.eq_ignore_ascii_case("me") {
        return Ok(UserLookup::Viewer);
    }
    let text = name.trim();
    if text.is_empty() {
        return Err(empty_error(EntityKind::User));
    }
    Ok(UserLookup::Directory(UserQuery { name: String::from_str(name), text: String::from_str(text) }))
}

/// Accepts a label name for the directory, or refuses it before anything
/// is fetched: a name of which nothing is left once trimmed.
pub fn label_request(name: &str) -> (r: Result<LabelQuery, ResolveError>)
    ensures
        if trimmed(name@).len() == 0 {
            r matches Err(e) && e@ == (Failure::Validation {
                message: empty_message(EntityKind::Label),
            })
        } else {
            r matches Ok(query) && query.reference() == name@
        },
{
    let text = name.trim();
    if text.is_empty() {
        return Err(empty_error(EntityKind::Label));
    }
    Ok(LabelQuery { name: String::from_str(name), text: String::from_str(text) })
}

/// The identifier that the sentinel stands for: the viewer's own.
pub fn viewer_id(viewer: &User) -> (r: String)
    ensures
        r@ == viewer.id@,
{
    viewer.id.clone()
}

/// Resolves a user query over a page of users.
pub fn user_id(users: &[User], query: &UserQuery) -> (r: Result<String, ResolveError>)
    ensures
        answer(r) == resolved(
            EntityKind::User,
            trimmed(query.reference()),
            user_candidates(users@),
        ),
{
    let text = query.text();
    let records = user_records(users);
    resolve(EntityKind::User, text, records.as_slice()).into_result(EntityKind::User, text)
}

/// Resolves a label query over a page of labels.
pub fn label_id(labels: &[Label], query: &LabelQuery) -> (r: Result<String, ResolveError>)
    ensures
        answer(r) == resolved(
            EntityKind::Label,
            trimmed(query.reference()),
            label_candidates(labels@),
        ),
{
    let text = query.text();
    let records = label_records(labels);
    resolve(EntityKind::Label, text, records.as_slice()).into_result(EntityKind::Label, text)
}

/// The whole of a user resolution, over both things that may be fetched
/// for it: the sentinel is the viewer, whatever the directory holds; a
/// blank reference is refused; every other one is put to the directory,
/// trimmed.
pub open spec fn user_resolution(name: Seq<char>, viewer: User, users: Seq<User>) -> Result<
    Seq<char>,
    Failure,
> {
    match user_plan(name) {
        UserPlan::Viewer => Ok(viewer.id@),
        UserPlan::Refused => Err(Failure::Validation { message: empty_message(EntityKind::User) }),
        UserPlan::Directory => resolved(EntityKind::User, trimmed(name), user_candidates(users)),
    }
}

/// The whole of a label resolution: a blank name is refused; every other
/// one is put to the directory, trimmed.
pub open spec fn label_resolution(name: Seq<char>, labels: Seq<Label>) -> Result<Seq<char>, Failure> {
    if trimmed(name).len() == 0 {
        Err(Failure::Validation { message: empty_message(EntityKind::Label) })
    } else {
        resolved(EntityKind::Label, trimmed(name), label_candidates(labels))
    }
}

/// Resolves a user reference for a caller that holds both the viewer and
/// a page of users: the request, then what the request asks for.
pub fn resolve_user(name: &str, viewer: &User, users: &[User]) -> (r: Result<String, ResolveError>)
    ensures
        answer(r) == user_resolution(name@, *viewer, users@),
{
    match user_request(name) {
        Ok(UserLookup::Viewer) => Ok(viewer_id(viewer)),
        Ok(UserLookup::Directory(query)) => user_id(users, &query),
        Err(e) => Err(e),
    }
}

/// Resolves a label name for a caller that holds a page of labels: the
/// request, then the directory.
pub fn resolve_label(name: &str, labels: &[Label]) -> (r: Result<String, ResolveError>)
    ensures
        answer(r) == label_resolution(name@, labels@),
{
    match label_request(name) {
        Ok(query) => label_id(labels, &query),
        Err(e) => Err(e),
    }
}

/// Where exactly one candidate satisfies a tier, the tier's matches are
/// that candidate alone.
pub proof fn lemma_single_match(tier: MatchTier, query: Seq<char>, candidates: Seq<Candidate>, at: int)
    requires
        0 <= at < candidates.len(),
        tier.accepts(query, candidates[at]),
        forall|j: int| 0 <= j < candidates.len() && j != at ==> !tier.accepts(query, #[trigger] candidates[j]),
    ensures
        matches_of(tier, query, candidates) == seq![candidates[at]],
    decreases candidates.len(),
{
    let accepted = |c: Candidate| tier.accepts(query, c);
    let front = candidates.drop_last();
    assert(candidates == front.push(candidates.last()));
    front.lemma_filter_push(candidates.last(), accepted);
    if at == candidates.len() - 1 {
        assert forall|j: int| 0 <= j < front.len() implies !accepted(#[trigger] front[j]) by {
            assert(front[j] == candidates[j]);
        }
        front.lemma_all_neg_filter_empty(accepted);
    } else {
        assert(front[at] == candidates[at]);
        assert forall|j: int| 0 <= j < front.len() && j != at implies !tier.accepts(
            query,
            #[trigger] front[j],
        ) by {
            assert(front[j] == candidates[j]);
        }
        lemma_single_match(tier, query, front, at);
    }
}

/// Where two candidates at different places satisfy a tier, the tier has
/// two matches or more.
pub proof fn lemma_two_matches(
    tier: MatchTier,
    query: Seq<char>,
    candidates: Seq<Candidate>,
    first: int,
    second: int,
)
    requires
        0 <= first < second < candidates.len(),
        tier.accepts(query, candidates[first]),
        tier.accepts(query, candidates[second]),
    ensures
        matches_of(tier, query, candidates).len() >= 2,
    decreases candidates.len(),
{
    let accepted = |c: Candidate| tier.accepts(query, c);
    let front = candidates.drop_last();
    assert(candidates == front.push(candidates.last()));
    front.lemma_filter_push(candidates.last(), accepted);
    if second == candidates.len() - 1 {
        assert(front[first] == candidates[first]);
        front.lemma_filter_contains(accepted, first);
        assert(front.filter(accepted).len() >= 1);
    } else {
        assert(front[first] == candidates[first]);
        assert(front[second] == candidates[second]);
        lemma_two_matches(tier, query, front, first, second);
    }
}

/// Every match of a tier is a candidate that the tier accepts.
pub proof fn lemma_matches_are_accepted(tier: MatchTier, query: Seq<char>, candidates: Seq<Candidate>)
    ensures
        forall|i: int|
            0 <= i < matches_of(tier, query, candidates).len() ==> {
                &&& tier.accepts(query, #[trigger] matches_of(tier, query, candidates)[i])
                &&& candidates.contains(matches_of(tier, query, candidates)[i])
            },
{
    let accepted = |c: Candidate| tier.accepts(query, c);
    assert forall|i: int| 0 <= i < matches_of(tier, query, candidates).len() implies {
        &&& tier.accepts(query, #[trigger] matches_of(tier, query, candidates)[i])
        &&& candidates.contains(matches_of(tier, query, candidates)[i])
    } by {
        candidates.lemma_filter_pred(accepted, i);
        let hit = candidates.filter(accepted)[i];
        assert(candidates.filter(accepted).contains(hit));
        candidates.lemma_filter_contains_rev(accepted, hit);
    }
}

/// Tier precedence. Where the highest tier of a kind accepts exactly one
/// candidate, that candidate's identifier is the answer, whatever a lower
/// tier would have matched: the lower tiers are not consulted.
pub proof fn law_exact_match_wins(kind: EntityKind, query: Seq<char>, candidates: Seq<Candidate>, at: int)
    requires
        0 <= at < candidates.len(),
        tiers_of(kind).first().accepts(query, candidates[at]),
        forall|j: int|
            0 <= j < candidates.len() && j != at ==> !tiers_of(kind).first().accepts(
                query,
                #[trigger] candidates[j],
            ),
    ensures
        resolution(tiers_of(kind), query, candidates) == Resolution::Resolved(candidates[at].id),
        resolved(kind, query, candidates) == Ok::<Seq<char>, Failure>(candidates[at].id),
{
    lemma_single_match(tiers_of(kind).first(), query, candidates, at);
}

/// Ambiguity over fallthrough. Where the highest tier of a kind accepts
/// two candidates or more, the resolution is ambiguous between exactly the
/// candidates that this tier accepts; no lower tier adds to them or
/// replaces them, even one that would have matched a single candidate.
pub proof fn law_ambiguity_is_final(
    kind: EntityKind,
    query: Seq<char>,
    candidates: Seq<Candidate>,
    first: int,
    second: int,
)
    requires
        0 <= first < second < candidates.len(),
        tiers_of(kind).first().accepts(query, candidates[first]),
        tiers_of(kind).first().accepts(query, candidates[second]),
    ensures
        resolution(tiers_of(kind), query, candidates) == (Resolution::Ambiguous {
            tier: tiers_of(kind).first(),
            candidates: matches_of(tiers_of(kind).first(), query, candidates),
        }),
        resolved(kind, query, candidates) is Err,
        resolved(kind, query, candidates)->Err_0 is Ambiguous,
        forall|i: int|
            0 <= i < matches_of(tiers_of(kind).first(), query, candidates).len()
                ==> tiers_of(kind).first().accepts(
                query,
                #[trigger] matches_of(tiers_of(kind).first(), query, candidates)[i],
            ),
{
    lemma_two_matches(tiers_of(kind).first(), query, candidates, first, second);
    lemma_matches_are_accepted(tiers_of(kind).first(), query, candidates);
}

/// The first tier with any match decides: where every tier before one is
/// without a match, the resolution is the reduction of that tier's
/// matches, and no tier after it has a say.
pub proof fn law_first_matching_tier_decides(
    tiers: Seq<MatchTier>,
    query: Seq<char>,
    candidates: Seq<Candidate>,
    at: int,
)
    requires
        0 <= at < tiers.len(),
        forall|j: int| 0 <= j < at ==> matches_of(#[trigger] tiers[j], query, candidates).len() == 0,
        matches_of(tiers[at], query, candidates).len() > 0,
    ensures
        Some(resolution(tiers, query, candidates)) == reduce(
            tiers[at],
            matches_of(tiers[at], query, candidates),
        ),
    decreases at,
{
    if at > 0 {
        let rest = tiers.drop_first();
        assert(matches_of(tiers[0], query, candidates).len() == 0);
        assert forall|j: int| 0 <= j < at - 1 implies matches_of(
            #[trigger] rest[j],
            query,
            candidates,
        ).len() == 0 by {
            assert(rest[j] == tiers[j + 1]);
        }
        assert(rest[at - 1] == tiers[at]);
        law_first_matching_tier_decides(rest, query, candidates, at - 1);
    }
}

/// The preview's cap is cosmetic. An ambiguous answer names every
/// competing candidate, however many there are, while its message spells
/// out at most [`CANDIDATE_PREVIEW_LIMIT`] of them and counts the rest.
pub proof fn law_preview_is_cosmetic(
    kind: EntityKind,
    tier: MatchTier,
    query: Seq<char>,
    hits: Seq<Candidate>,
)
    ensures
        outcome_answer(kind, query, Resolution::Ambiguous { tier, candidates: hits }) == Err::<
            Seq<char>,
            Failure,
        >(
            Failure::Ambiguous {
                candidates: ids(hits),
                message: ambiguous_message(tier, query, preview(hits)),
            },
        ),
        ids(hits).len() == hits.len(),
        forall|i: int| 0 <= i < hits.len() ==> #[trigger] ids(hits)[i] == hits[i].id,
        hits.len() > CANDIDATE_PREVIEW_LIMIT ==> preview(hits) == join(
            rendered(hits.take(CANDIDATE_PREVIEW_LIMIT as int)),
            ", "@,
        ) + " (+"@ + decimal((hits.len() - CANDIDATE_PREVIEW_LIMIT) as nat) + " more)"@,
        hits.len() > CANDIDATE_PREVIEW_LIMIT ==> rendered(
            hits.take(CANDIDATE_PREVIEW_LIMIT as int),
        ).len() == CANDIDATE_PREVIEW_LIMIT,
{
}

/// The sentinel bypasses the directory. A reference that is `me` in any
/// case is planned for the viewer, so that no page of users is asked for
/// and no query for one comes to be; and it resolves to the viewer
/// whatever the directory holds, a user called `me` included.
pub proof fn law_sentinel_bypasses_directory(name: Seq<char>, viewer: User, users: Seq<User>)
    requires
        is_sentinel(name),
    ensures
        user_plan(name) == UserPlan::Viewer,
        user_resolution(name, viewer, users) == Ok::<Seq<char>, Failure>(viewer.id@),
{
}

/// The sentinel is `me` in any case and nothing else: the two letters,
/// each in either case.
pub proof fn law_sentinel_is_me(name: Seq<char>)
    ensures
        is_sentinel(name) <==> {
            &&& name.len() == 2
            &&& (name[0] == 'm' || name[0] == 'M')
            &&& (name[1] == 'e' || name[1] == 'E')
        },
{
    reveal_strlit("me");
    let folded = ascii_lowercase(name);
    let me = ascii_lowercase("me"@);
    assert(me.len() == 2);
    assert(me[0] == 'm' && me[1] == 'e');
    if is_sentinel(name) {
        assert(folded == me);
        assert(folded.len() == 2);
        assert(folded[0] == ascii_lower(name[0]));
        assert(folded[1] == ascii_lower(name[1]));
        lemma_ascii_lower_letter(name[0], 'm');
        lemma_ascii_lower_letter(name[1], 'e');
    }
    if name.len() == 2 && (name[0] == 'm' || name[0] == 'M') && (name[1] == 'e' || name[1] == 'E') {
        lemma_ascii_lower_letter(name[0], 'm');
        lemma_ascii_lower_letter(name[1], 'e');
        assert(folded =~= me);
    }
}

/// A blank reference is refused before any fetch. A user reference or a
/// label name that is empty or holds only whitespace is not the sentinel,
/// is planned to be refused, and trims to nothing, which is what
/// [`label_request`] refuses.
pub proof fn law_blank_is_refused(name: Seq<char>, viewer: User, users: Seq<User>, labels: Seq<Label>)
    requires
        is_blank(name),
    ensures
        user_plan(name) == UserPlan::Refused,
        trimmed(name).len() == 0,
        user_resolution(name, viewer, users) == Err::<Seq<char>, Failure>(
            Failure::Validation { message: empty_message(EntityKind::User) },
        ),
        label_resolution(name, labels) == Err::<Seq<char>, Failure>(
            Failure::Validation { message: empty_message(EntityKind::Label) },
        ),
{
    lemma_trimmed_empty_iff_blank(name);
    lemma_blank_is_not_sentinel(name);
}

/// Only a blank reference trims to nothing: every other one that is not
/// the sentinel reaches the directory.
pub proof fn law_only_blank_is_refused(name: Seq<char>)
    requires
        !is_blank(name),
    ensures
        user_plan(name) != UserPlan::Refused,
        trimmed(name).len() > 0,
{
    lemma_trimmed_empty_iff_blank(name);
}

/// No blank text is the sentinel.
pub proof fn lemma_blank_is_not_sentinel(name: Seq<char>)
    requires
        is_blank(name),
    ensures
        !is_sentinel(name),
{
    law_sentinel_is_me(name);
    if is_sentinel(name) {
        assert(is_whitespace(name[0]));
    }
}

} // verus!
