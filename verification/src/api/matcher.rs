//! The matcher: which candidates of a snapshot a query names, tier by tier.

use vstd::prelude::*;
use crate::api::candidate::{opt_chars, views, Candidate, CandidateRecord, EntityKind};
use crate::text::{has_substring, lowercase, same_ignoring_ascii_case, str_contains, str_eq};

verus! {

/// A matching strategy. Each belongs to one kind of entity, and the tiers
/// of a kind are tried in a fixed order.
#[derive(Clone, Copy, Debug, PartialEq, Eq, Structural)]
pub enum MatchTier {
    /// A team whose key equals the query, ignoring ASCII case.
    TeamKey,
    /// A user whose display name, name or email equals the query, ignoring
    /// ASCII case.
    UserExact,
    /// A user whose display name, name or email, in lower case, contains the
    /// query in lower case.
    UserSubstring,
    /// A workflow state whose name equals the query once both are in lower
    /// case.
    StateName,
    /// A label whose name is the query, character for character.
    LabelExact,
    /// A label whose name equals the query, ignoring ASCII case.
    LabelIgnoreCase,
}

/// A searchable field of a candidate.
#[derive(Clone, Copy, Debug, PartialEq, Eq, Structural)]
pub enum Field {
    Key,
    Name,
    DisplayName,
    Email,
}

/// How a tier holds a field against the query.
#[derive(Clone, Copy, Debug, PartialEq, Eq, Structural)]
pub enum Comparison {
    /// The field is the query, character for character.
    Exact,
    /// The field equals the query, ignoring ASCII case.
    IgnoreAsciiCase,
    /// The lower-case forms of the field and of the query are equal.
    LowercaseEquals,
    /// The lower-case form of the field contains that of the query.
    LowercaseContains,
}

/// The field is present and equals the query, ignoring ASCII case.
pub open spec fn field_equals_ignore_case(value: Option<Seq<char>>, query: Seq<char>) -> bool {
    value matches Some(v) && same_ignoring_ascii_case(v, query)
}

/// The field is present and its lower-case form contains `query_lower`.
pub open spec fn field_contains_ignore_case(value: Option<Seq<char>>, query_lower: Seq<char>) -> bool {
    value matches Some(v) && has_substring(lowercase(v), query_lower)
}

/// The field is present and its lower-case form is `query_lower`.
pub open spec fn field_lowercase_is(value: Option<Seq<char>>, query_lower: Seq<char>) -> bool {
    value matches Some(v) && lowercase(v) == query_lower
}

/// Whether a field matches the query under a comparison. An absent field
/// matches nothing.
pub open spec fn compares(how: Comparison, value: Option<Seq<char>>, query: Seq<char>) -> bool {
    match how {
        Comparison::Exact => value == Some(query),
        Comparison::IgnoreAsciiCase => field_equals_ignore_case(value, query),
        Comparison::LowercaseEquals => field_lowercase_is(value, lowercase(query)),
        Comparison::LowercaseContains => field_contains_ignore_case(value, lowercase(query)),
    }
}

impl Field {
    /// The field's value in a candidate.
    pub open spec fn of(self, candidate: Candidate) -> Option<Seq<char>> {
        match self {
            Field::Key => candidate.key,
            Field::Name => candidate.name,
            Field::DisplayName => candidate.display_name,
            Field::Email => candidate.email,
        }
    }

    /// Reads the field from a record.
    pub fn read<'a>(self, record: &CandidateRecord<'a>) -> (r: Option<&'a str>)
        ensures
            opt_chars(r) == self.of(record@),
    {
        match self {
            Field::Key => record.key,
            Field::Name => record.name,
            Field::DisplayName => record.display_name,
            Field::Email => record.email,
        }
    }
}

impl Comparison {
    /// Whether the comparison is of lower-case forms.
    pub open spec fn spec_folds(self) -> bool {
        self == Comparison::LowercaseEquals || self == Comparison::LowercaseContains
    }

    #[verifier::when_used_as_spec(spec_folds)]
    pub fn folds(self) -> (r: bool)
        ensures
            r == self.spec_folds(),
    {
        match self {
            Comparison::LowercaseEquals => true,
            Comparison::LowercaseContains => true,
            _ => false,
        }
    }

    /// Holds one field against the query. `query_lower` is read only by
    /// the comparisons of lower-case forms.
    fn hit(self, value: Option<&str>, query: &str, query_lower: &str) -> (r: bool)
        requires
            self.folds() ==> query_lower@ == lowercase(query@),
        ensures
            r == compares(self, opt_chars(value), query@),
    {
        match self {
            Comparison::Exact => match value {
                Some(v) => str_eq(v, query),
                None => false,
            },
            Comparison::IgnoreAsciiCase => equals_ignore_case(value, query),
            Comparison::LowercaseEquals => match value {
                Some(v) => {
                    let lowered = v.to_lowercase();
                    str_eq(lowered.as_str(), query_lower)
                },
                None => false,
            },
            Comparison::LowercaseContains => contains_ignore_case(value, query_lower),
        }
    }
}

impl MatchTier {
    /// The kind of entity that the tier is for.
    pub open spec fn spec_kind(self) -> EntityKind {
        match self {
            MatchTier::TeamKey => EntityKind::Team,
            MatchTier::UserExact => EntityKind::User,
            MatchTier::UserSubstring => EntityKind::User,
            MatchTier::StateName => EntityKind::WorkflowState,
            MatchTier::LabelExact => EntityKind::Label,
            MatchTier::LabelIgnoreCase => EntityKind::Label,
        }
    }

    /// How the tier holds a field against the query.
    pub open spec fn spec_comparison(self) -> Comparison {
        match self {
            MatchTier::TeamKey => Comparison::IgnoreAsciiCase,
            MatchTier::UserExact => Comparison::IgnoreAsciiCase,
            MatchTier::UserSubstring => Comparison::LowercaseContains,
            MatchTier::StateName => Comparison::LowercaseEquals,
            MatchTier::LabelExact => Comparison::Exact,
            MatchTier::LabelIgnoreCase => Comparison::IgnoreAsciiCase,
        }
    }

    /// The fields that the tier searches, in the order it reads them.
    pub open spec fn searched(self) -> Seq<Field> {
        match self {
            MatchTier::TeamKey => seq![Field::Key],
            MatchTier::UserExact => seq![Field::DisplayName, Field::Name, Field::Email],
            MatchTier::UserSubstring => seq![Field::DisplayName, Field::Name, Field::Email],
            MatchTier::StateName => seq![Field::Name],
            MatchTier::LabelExact => seq![Field::Name],
            MatchTier::LabelIgnoreCase => seq![Field::Name],
        }
    }

    /// Whether the tier compares lower-case forms.
    pub open spec fn spec_folds(self) -> bool {
        self.spec_comparison().spec_folds()
    }

    #[verifier::when_used_as_spec(spec_kind)]
    pub fn kind(self) -> (k: EntityKind)
        ensures
            k == self.spec_kind(),
    {
        match self {
            MatchTier::TeamKey => EntityKind::Team,
            MatchTier::UserExact => EntityKind::User,
            MatchTier::UserSubstring => EntityKind::User,
            MatchTier::StateName => EntityKind::WorkflowState,
            MatchTier::LabelExact => EntityKind::Label,
            MatchTier::LabelIgnoreCase => EntityKind::Label,
        }
    }

    #[verifier::when_used_as_spec(spec_comparison)]
    pub fn comparison(self) -> (r: Comparison)
        ensures
            r == self.spec_comparison(),
    {
        match self {
            MatchTier::TeamKey => Comparison::IgnoreAsciiCase,
            MatchTier::UserExact => Comparison::IgnoreAsciiCase,
            MatchTier::UserSubstring => Comparison::LowercaseContains,
            MatchTier::StateName => Comparison::LowercaseEquals,
            MatchTier::LabelExact => Comparison::Exact,
            MatchTier::LabelIgnoreCase => Comparison::IgnoreAsciiCase,
        }
    }

    /// The fields that the tier searches, in the order it reads them.
    pub fn fields(self) -> (r: Vec<Field>)
        ensures
            r@ == self.searched(),
    {
        match self {
            MatchTier::TeamKey => vec![Field::Key],
            MatchTier::UserExact => vec![Field::DisplayName, Field::Name, Field::Email],
            MatchTier::UserSubstring => vec![Field::DisplayName, Field::Name, Field::Email],
            MatchTier::StateName => vec![Field::Name],
            MatchTier::LabelExact => vec![Field::Name],
            MatchTier::LabelIgnoreCase => vec![Field::Name],
        }
    }

    #[verifier::when_used_as_spec(spec_folds)]
    pub fn folds(self) -> (r: bool)
        ensures
            r == self.spec_folds(),
    {
        self.comparison().folds()
    }

    /// The tier's predicate: a candidate of the tier's kind is a match for
    /// `query` when one of the fields that the tier searches matches it
    /// under the tier's comparison. A candidate of another kind never is.
    pub open spec fn accepts(self, query: Seq<char>, candidate: Candidate) -> bool {
        &&& candidate.kind == self.kind()
        &&& exists|i: int|
            0 <= i < self.searched().len() && compares(
                self.comparison(),
                (#[trigger] self.searched()[i]).of(candidate),
                query,
            )
    }
}

/// The candidates that a tier accepts for a query, in their input order.
pub open spec fn matches_of(tier: MatchTier, query: Seq<char>, candidates: Seq<Candidate>) -> Seq<Candidate> {
    candidates.filter(|c: Candidate| tier.accepts(query, c))
}

/// The tiers of a kind, highest priority first.
pub open spec fn tiers_of(kind: EntityKind) -> Seq<MatchTier> {
    match kind {
        EntityKind::Team => seq![MatchTier::TeamKey],
        EntityKind::User => seq![MatchTier::UserExact, MatchTier::UserSubstring],
        EntityKind::WorkflowState => seq![MatchTier::StateName],
        EntityKind::Label => seq![MatchTier::LabelExact, MatchTier::LabelIgnoreCase],
    }
}

/// Whether a field is present and equals the query, ignoring ASCII case.
pub fn equals_ignore_case(value: Option<&str>, query: &str) -> (r: bool)
    ensures
        r == field_equals_ignore_case(opt_chars(value), query@),
{
    match value {
        Some(v) => v.eq_ignore_ascii_case(query),
        None => false,
    }
}

/// Whether a field is present and, in lower case, contains `query_lower`.
/// The caller lowers the query once for all candidates.
pub fn contains_ignore_case(value: Option<&str>, query_lower: &str) -> (r: bool)
    ensures
        r == field_contains_ignore_case(opt_chars(value), query_lower@),
{
    match value {
        Some(v) => {
            let lowered = v.to_lowercase();
            str_contains(lowered.as_str(), query_lower)
        },
        None => false,
    }
}

impl MatchTier {
    /// Applies the tier's predicate to one record, given the tier's
    /// fields. `query_lower` is read only by the tiers that compare
    /// lower-case forms.
    fn hit(self, fields: &Vec<Field>, query: &str, query_lower: &str, record: &CandidateRecord) -> (r:
        bool)
        requires
            fields@ == self.searched(),
            self.folds() ==> query_lower@ == lowercase(query@),
        ensures
            r == self.accepts(query@, record@),
    {
        if record.kind != self.kind() {
            return false;
        }
        let how = self.comparison();
        let mut i: usize = 0;
        while i < fields.len()
            invariant
                i <= fields.len(),
                fields@ == self.searched(),
                how == self.comparison(),
                record@.kind == self.kind(),
                self.folds() ==> query_lower@ == lowercase(query@),
                forall|j: int|
                    0 <= j < i ==> !compares(how, (#[trigger] self.searched()[j]).of(record@), query@),
            decreases fields.len() - i,
        {
            if how.hit(fields[i].read(record), query, query_lower) {
                proof {
                    assert(compares(how, self.searched()[i as int].of(record@), query@));
                }
                return true;
            }
            i += 1;
        }
        false
    }
}

/// The tiers of a kind, highest priority first.
pub fn tiers(kind: EntityKind) -> (r: Vec<MatchTier>)
    ensures
        r@ == tiers_of(kind),
{
    match kind {
        EntityKind::Team => vec![MatchTier::TeamKey],
        EntityKind::User => vec![MatchTier::UserExact, MatchTier::UserSubstring],
        EntityKind::WorkflowState => vec![MatchTier::StateName],
        EntityKind::Label => vec![MatchTier::LabelExact, MatchTier::LabelIgnoreCase],
    }
}

/// Extending the candidates by one extends the matches by it exactly when
/// the tier accepts it.
pub proof fn lemma_matches_push(tier: MatchTier, query: Seq<char>, candidates: Seq<Candidate>, next: Candidate)
    ensures
        matches_of(tier, query, candidates.push(next)) == if tier.accepts(query, next) {
            matches_of(tier, query, candidates).push(next)
        } else {
            matches_of(tier, query, candidates)
        },
{
    candidates.lemma_filter_push(next, |c: Candidate| tier.accepts(query, c));
}

/// The candidates that satisfy the tier's predicate for `query`, in their
/// input order.
pub fn matching<'a>(query: &str, candidates: &[CandidateRecord<'a>], tier: MatchTier) -> (hits: Vec<
    CandidateRecord<'a>,
>)
    ensures
        views(hits@) == matches_of(tier, query@, views(candidates@)),
{
    let query_lower = if tier.folds() {
        query.to_lowercase()
    } else {
        String::new()
    };
    let fields = tier.fields();
    let mut hits: Vec<CandidateRecord<'a>> = Vec::new();
    let mut i: usize = 0;
    proof {
        reveal(Seq::filter);
        assert(views(candidates@.take(0)) == Seq::<Candidate>::empty());
    }
    while i < candidates.len()
        invariant
            i <= candidates.len(),
            fields@ == tier.searched(),
            tier.folds() ==> query_lower@ == lowercase(query@),
            views(hits@) == matches_of(tier, query@, views(candidates@.take(i as int))),
        decreases candidates.len() - i,
    {
        let record = candidates[i];
        proof {
            assert(candidates@.take(i + 1) == candidates@.take(i as int).push(record));
            assert(views(candidates@.take(i as int).push(record)) == views(
                candidates@.take(i as int),
            ).push(record@));
            assert(views(hits@.push(record)) == views(hits@).push(record@));
            lemma_matches_push(tier, query@, views(candidates@.take(i as int)), record@);
        }
        if tier.hit(&fields, query, query_lower.as_str(), &record) {
            hits.push(record);
        }
        i += 1;
    }
    proof {
        assert(candidates@.take(candidates@.len() as int) == candidates@);
    }
    hits
}

} // verus!
