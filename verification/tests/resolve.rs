use linear_cli::api::candidate::{CandidateRecord, EntityKind};
use linear_cli::api::matcher::{
    contains_ignore_case, equals_ignore_case, matching, tiers, Comparison, Field, MatchTier,
};
use linear_cli::api::render::{render, render_label_candidates, render_user_candidates};
use linear_cli::api::resolve::{
    label_id, label_request, resolve, resolve_label, resolve_user, state_id, team_id, user_id,
    user_request, viewer_id, ResolutionOutcome, ResolveError, UserLookup, LOOKUP_LIMIT,
};
use linear_cli::api::types::{Label, Team, User, WorkflowState};

fn user(id: &str, display: Option<&str>, name: Option<&str>, email: Option<&str>) -> User {
    User {
        id: id.to_string(),
        name: name.map(|s| s.to_string()),
        email: email.map(|s| s.to_string()),
        display_name: display.map(|s| s.to_string()),
        active: Some(true),
    }
}

fn label(id: &str, name: Option<&str>) -> Label {
    Label { id: id.to_string(), name: name.map(|s| s.to_string()), color: None }
}

fn team(id: &str, key: Option<&str>, name: Option<&str>) -> Team {
    Team { id: id.to_string(), key: key.map(|s| s.to_string()), name: name.map(|s| s.to_string()) }
}

fn state(id: &str, name: Option<&str>) -> WorkflowState {
    WorkflowState {
        id: id.to_string(),
        name: name.map(|s| s.to_string()),
        state_type: None,
        color: None,
    }
}

/// A user reference taken through both steps: the request, then the
/// directory.
fn find_user(users: &[User], name: &str) -> Result<String, ResolveError> {
    match user_request(name)? {
        UserLookup::Directory(query) => user_id(users, &query),
        UserLookup::Viewer => panic!("{:?} asks for the viewer", name),
    }
}

/// A label name taken through both steps.
fn find_label(labels: &[Label], name: &str) -> Result<String, ResolveError> {
    let query = label_request(name)?;
    label_id(labels, &query)
}

fn alex_directory() -> Vec<User> {
    vec![
        user("u1", Some("Alex Kim"), None, Some("alex@co.com")),
        user("u2", Some("Alex Park"), None, Some("park@co.com")),
    ]
}

fn ambiguous(err: ResolveError) -> (Vec<String>, String) {
    match err {
        ResolveError::Ambiguous { candidates, message } => (candidates, message),
        other => panic!("expected an ambiguous failure, got {:?}", other),
    }
}

#[test]
fn exact_tier_wins_over_substring_matches() {
    let users = vec![
        user("u1", Some("Sam"), None, Some("sam@co.com")),
        user("u2", Some("Samantha"), None, Some("samantha@co.com")),
        user("u3", Some("Sammy"), None, None),
    ];
    assert_eq!(find_user(&users, "sam").unwrap(), "u1");
    assert_eq!(find_user(&users, "SAM").unwrap(), "u1");
}

#[test]
fn exact_tier_ambiguity_is_not_rescued_by_a_lower_tier() {
    let users = vec![
        user("u1", Some("Sam"), None, Some("sam@one.com")),
        user("u2", Some("sam"), None, Some("sam@two.com")),
        user("u3", Some("Samantha"), None, None),
    ];
    let (candidates, message) = ambiguous(find_user(&users, "Sam").unwrap_err());
    assert_eq!(candidates, vec!["u1".to_string(), "u2".to_string()]);
    assert_eq!(
        message,
        "Ambiguous user 'Sam'. Matches: Sam <sam@one.com>, sam <sam@two.com>. Use a full email for an exact target."
    );
}

#[test]
fn label_case_sensitivity_asymmetry() {
    let labels = vec![label("l1", Some("Bug")), label("l2", Some("bug"))];
    assert_eq!(find_label(&labels, "Bug").unwrap(), "l1");
    assert_eq!(find_label(&labels, "bug").unwrap(), "l2");
    let (candidates, message) = ambiguous(find_label(&labels, "BUG").unwrap_err());
    assert_eq!(candidates, vec!["l1".to_string(), "l2".to_string()]);
    assert_eq!(
        message,
        "Ambiguous label 'BUG'. Multiple case-insensitive matches exist: Bug [l1], bug [l2]. Use exact case."
    );
}

#[test]
fn label_exact_case_collision_is_ambiguous() {
    let labels = vec![label("l1", Some("Bug")), label("l2", Some("Bug")), label("l3", Some("bug"))];
    let (candidates, message) = ambiguous(find_label(&labels, "Bug").unwrap_err());
    assert_eq!(candidates, vec!["l1".to_string(), "l2".to_string()]);
    assert_eq!(message, "Ambiguous label 'Bug'. Matches: Bug [l1], Bug [l2].");
}

#[test]
fn sentinel_asks_for_the_viewer_in_any_case() {
    for name in ["me", "ME", "Me", "mE"] {
        assert!(matches!(user_request(name), Ok(UserLookup::Viewer)));
    }
    let viewer = user("viewer-1", Some("Me Myself"), Some("me"), None);
    assert_eq!(viewer_id(&viewer), "viewer-1");
}

#[test]
fn sentinel_resolves_to_the_viewer_whatever_the_directory_holds() {
    let viewer = user("viewer-1", Some("Vi"), None, None);
    let users = vec![
        user("u1", Some("me"), Some("me"), Some("me")),
        user("u2", Some("ME"), None, None),
    ];
    for name in ["me", "ME", "Me", "mE"] {
        assert_eq!(resolve_user(name, &viewer, &users).unwrap(), "viewer-1");
        assert_eq!(resolve_user(name, &viewer, &[]).unwrap(), "viewer-1");
    }
    let (candidates, _) = ambiguous(resolve_user(" me", &viewer, &users).unwrap_err());
    assert_eq!(candidates, vec!["u1".to_string(), "u2".to_string()]);
}

#[test]
fn whole_resolutions_take_both_steps() {
    let viewer = user("viewer-1", None, None, None);
    let users = alex_directory();
    assert_eq!(resolve_user(" kim ", &viewer, &users).unwrap(), "u1");
    assert!(matches!(resolve_user(" ", &viewer, &users), Err(ResolveError::Validation { .. })));
    assert!(matches!(resolve_user("zed", &viewer, &users), Err(ResolveError::NotFound { .. })));
    let labels = vec![label("l1", Some("Bug")), label("l2", Some("bug"))];
    assert_eq!(resolve_label(" bug ", &labels).unwrap(), "l2");
    assert!(matches!(resolve_label("\t", &labels), Err(ResolveError::Validation { .. })));
    assert!(matches!(resolve_label("BUG", &labels), Err(ResolveError::Ambiguous { .. })));
    assert!(matches!(resolve_label("chore", &labels), Err(ResolveError::NotFound { .. })));
}

#[test]
fn sentinel_is_tested_before_trimming() {
    match user_request(" me ") {
        Ok(UserLookup::Directory(query)) => {
            assert_eq!(query.text(), "me");
            assert_eq!(query.first(), 250);
        }
        other => panic!("expected a query for the directory, got {:?}", other),
    }
    match user_request("men") {
        Ok(UserLookup::Directory(query)) => {
            assert_eq!(query.text(), "men");
            assert_eq!(query.first(), LOOKUP_LIMIT);
        }
        other => panic!("expected a query for the directory, got {:?}", other),
    }
    for name in ["m", "e", "mee", "me ", " me", "m e", "ｍｅ"] {
        assert!(matches!(user_request(name), Ok(UserLookup::Directory(_))), "{:?}", name);
    }
}

#[test]
fn blank_user_reference_is_refused_before_any_fetch() {
    for name in ["", " ", "   ", "\t", "\n", " \t\r\n ", "\u{a0}", "\u{3000}\u{2003}"] {
        match user_request(name) {
            Err(ResolveError::Validation { message }) => assert_eq!(message, "User cannot be empty"),
            other => panic!("expected a validation failure for {:?}, got {:?}", name, other),
        }
    }
}

#[test]
fn blank_label_name_is_refused_before_any_fetch() {
    for name in ["", " ", "\t\t", "\n", "\u{2028}"] {
        match label_request(name) {
            Err(ResolveError::Validation { message }) => assert_eq!(message, "Label cannot be empty"),
            other => panic!("expected a validation failure for {:?}, got {:?}", name, other),
        }
    }
    let query = label_request(" Bug ").unwrap();
    assert_eq!(query.text(), "Bug");
    assert_eq!(query.first(), 250);
}

#[test]
fn preview_truncation_is_cosmetic() {
    let users: Vec<User> = (1..=7)
        .map(|i| user(&format!("u{i}"), Some(&format!("Pat {i}")), None, None))
        .collect();
    let (candidates, message) = ambiguous(find_user(&users, "pat").unwrap_err());
    assert_eq!(candidates.len(), 7);
    assert_eq!(candidates, vec!["u1", "u2", "u3", "u4", "u5", "u6", "u7"]);
    assert_eq!(
        message,
        "Ambiguous user 'pat'. Matches: Pat 1, Pat 2, Pat 3, Pat 4, Pat 5 (+2 more). Use a full email for an exact target."
    );
    let refs: Vec<&User> = users.iter().collect();
    assert_eq!(render_user_candidates(&refs), "Pat 1, Pat 2, Pat 3, Pat 4, Pat 5 (+2 more)");
}

#[test]
fn preview_shows_all_of_five_and_counts_from_six() {
    let labels: Vec<Label> = (1..=6).map(|i| label(&format!("l{i}"), Some("x"))).collect();
    let five: Vec<&Label> = labels.iter().take(5).collect();
    assert_eq!(render_label_candidates(&five), "x [l1], x [l2], x [l3], x [l4], x [l5]");
    let six: Vec<&Label> = labels.iter().collect();
    assert_eq!(
        render_label_candidates(&six),
        "x [l1], x [l2], x [l3], x [l4], x [l5] (+1 more)"
    );
    let none: Vec<&Label> = Vec::new();
    assert_eq!(render_label_candidates(&none), "");
}

#[test]
fn preview_counts_large_remainders_in_decimal() {
    let labels: Vec<Label> = (0..1208).map(|i| label(&format!("{i}"), None)).collect();
    let refs: Vec<&Label> = labels.iter().collect();
    assert_eq!(
        render_label_candidates(&refs),
        "Unnamed [0], Unnamed [1], Unnamed [2], Unnamed [3], Unnamed [4] (+1203 more)"
    );
    let fifteen: Vec<&Label> = labels.iter().take(15).collect();
    assert!(render_label_candidates(&fifteen).ends_with(" (+10 more)"));
    let many: Vec<&Label> = labels.iter().take(105).collect();
    assert!(render_label_candidates(&many).ends_with(" (+100 more)"));
}

#[test]
fn end_to_end_example() {
    let users = alex_directory();
    let (candidates, message) = ambiguous(find_user(&users, "alex").unwrap_err());
    assert_eq!(candidates, vec!["u1".to_string(), "u2".to_string()]);
    assert_eq!(
        message,
        "Ambiguous user 'alex'. Matches: Alex Kim <alex@co.com>, Alex Park <park@co.com>. Use a full email for an exact target."
    );
    let refs: Vec<&User> = users.iter().collect();
    assert_eq!(render_user_candidates(&refs), "Alex Kim <alex@co.com>, Alex Park <park@co.com>");
    assert_eq!(find_user(&users, "alex@co.com").unwrap(), "u1");
    assert_eq!(find_user(&users, "ALEX@CO.COM").unwrap(), "u1");
}

#[test]
fn user_substring_tier_resolves_a_single_match() {
    let users = alex_directory();
    assert_eq!(find_user(&users, "kim").unwrap(), "u1");
    assert_eq!(find_user(&users, "  PARK ").unwrap(), "u2");
    assert_eq!(find_user(&users, "park@").unwrap(), "u2");
}

#[test]
fn user_substring_tier_folds_beyond_ascii() {
    let users = vec![
        user("u1", Some("Zoë Ämmer"), None, None),
        user("u2", Some("Bob"), None, None),
    ];
    assert_eq!(find_user(&users, "ÄMM").unwrap(), "u1");
    match find_user(&users, "ZOË ÄMMER") {
        Ok(id) => assert_eq!(id, "u1"),
        other => panic!("expected the substring tier to resolve, got {:?}", other),
    }
}

#[test]
fn user_not_found_names_the_trimmed_query() {
    match find_user(&alex_directory(), "  zed ") {
        Err(ResolveError::NotFound { message }) => assert_eq!(message, "User 'zed' not found"),
        other => panic!("expected not found, got {:?}", other),
    }
    match find_user(&[], "zed") {
        Err(ResolveError::NotFound { message }) => assert_eq!(message, "User 'zed' not found"),
        other => panic!("expected not found, got {:?}", other),
    }
}

#[test]
fn user_named_me_is_an_ordinary_directory_entry() {
    let users = vec![user("u9", Some("me"), None, None)];
    assert!(matches!(user_request("me"), Ok(UserLookup::Viewer)));
    assert!(matches!(user_request("ME"), Ok(UserLookup::Viewer)));
    assert_eq!(find_user(&users, " me").unwrap(), "u9");
}

#[test]
fn user_matches_on_any_searchable_field() {
    let users = vec![
        user("u1", Some("Display"), Some("login"), Some("mail@co.com")),
        user("u2", None, None, None),
    ];
    assert_eq!(find_user(&users, "display").unwrap(), "u1");
    assert_eq!(find_user(&users, "LOGIN").unwrap(), "u1");
    assert_eq!(find_user(&users, "Mail@Co.Com").unwrap(), "u1");
}

#[test]
fn team_resolves_by_key_ignoring_ascii_case() {
    let teams = vec![
        team("t1", Some("ENG"), Some("Engineering")),
        team("t2", Some("OPS"), Some("Operations")),
        team("t3", None, Some("eng")),
    ];
    assert_eq!(team_id(&teams, "eng").unwrap(), "t1");
    assert_eq!(team_id(&teams, "Ops").unwrap(), "t2");
    match team_id(&teams, "Engineering") {
        Err(ResolveError::NotFound { message }) => {
            assert_eq!(message, "Team 'Engineering' not found")
        }
        other => panic!("expected not found, got {:?}", other),
    }
    match team_id(&teams, " eng") {
        Err(ResolveError::NotFound { message }) => assert_eq!(message, "Team ' eng' not found"),
        other => panic!("expected not found, got {:?}", other),
    }
}

#[test]
fn team_key_collision_is_ambiguous() {
    let teams = vec![team("t1", Some("ENG"), Some("Engineering")), team("t2", Some("eng"), None)];
    let (candidates, message) = ambiguous(team_id(&teams, "Eng").unwrap_err());
    assert_eq!(candidates, vec!["t1".to_string(), "t2".to_string()]);
    assert_eq!(message, "Ambiguous team 'Eng'. Matches: Engineering [t1], Unnamed [t2].");
}

#[test]
fn state_resolves_by_lower_cased_name() {
    let states = vec![
        state("s1", Some("In Progress")),
        state("s2", Some("Done")),
        state("s3", None),
        state("s4", Some("ÉPICA")),
    ];
    assert_eq!(state_id(&states, "in progress").unwrap(), "s1");
    assert_eq!(state_id(&states, "DONE").unwrap(), "s2");
    assert_eq!(state_id(&states, "épica").unwrap(), "s4");
    match state_id(&states, "Progress") {
        Err(ResolveError::NotFound { message }) => {
            assert_eq!(message, "State 'Progress' not found for this team")
        }
        other => panic!("expected not found, got {:?}", other),
    }
}

#[test]
fn state_name_collision_is_ambiguous() {
    let states = vec![state("s1", Some("Todo")), state("s2", Some("TODO"))];
    let (candidates, message) = ambiguous(state_id(&states, "todo").unwrap_err());
    assert_eq!(candidates, vec!["s1".to_string(), "s2".to_string()]);
    assert_eq!(message, "Ambiguous state 'todo'. Matches: Todo [s1], TODO [s2].");
}

#[test]
fn label_not_found_and_ascii_only_folding() {
    let labels = vec![label("l1", Some("Épique")), label("l2", None)];
    assert_eq!(find_label(&labels, " Épique ").unwrap(), "l1");
    match find_label(&labels, "épique") {
        Err(ResolveError::NotFound { message }) => assert_eq!(message, "Label 'épique' not found"),
        other => panic!("expected not found, got {:?}", other),
    }
    assert_eq!(find_label(&labels, "ÉPIQUE").unwrap(), "l1");
}

#[test]
fn field_comparisons() {
    assert!(equals_ignore_case(Some("Alex"), "aLEX"));
    assert!(!equals_ignore_case(Some("Alex"), "ale"));
    assert!(!equals_ignore_case(Some("Alex "), "Alex"));
    assert!(!equals_ignore_case(None, ""));
    assert!(equals_ignore_case(Some(""), ""));
    assert!(!equals_ignore_case(Some("É"), "é"));
    assert!(contains_ignore_case(Some("Alex Kim"), "x k"));
    assert!(contains_ignore_case(Some("Alex Kim"), ""));
    assert!(!contains_ignore_case(Some("Alex Kim"), "X K"));
    assert!(!contains_ignore_case(Some("Alex"), "alexa"));
    assert!(!contains_ignore_case(None, ""));
    assert!(contains_ignore_case(Some("ÉCOLE"), "école"));
}

#[test]
fn matching_keeps_input_order_and_kind() {
    let users = vec![
        user("u1", Some("Ann B"), None, None),
        user("u2", Some("Bob"), None, None),
        user("u3", Some("Cy"), Some("ann b"), None),
    ];
    let teams = vec![team("t1", Some("ann b"), Some("Ann B"))];
    let mut records: Vec<CandidateRecord> = users.iter().map(CandidateRecord::of_user).collect();
    records.push(CandidateRecord::of_team(&teams[0]));
    let hits = matching("ann b", &records, MatchTier::UserExact);
    let found: Vec<&str> = hits.iter().map(|r| r.id).collect();
    assert_eq!(found, vec!["u1", "u3"]);
    let hits = matching("B", &records, MatchTier::UserSubstring);
    let found: Vec<&str> = hits.iter().map(|r| r.id).collect();
    assert_eq!(found, vec!["u1", "u2", "u3"]);
    let hits = matching("ANN B", &records, MatchTier::TeamKey);
    let found: Vec<&str> = hits.iter().map(|r| r.id).collect();
    assert_eq!(found, vec!["t1"]);
    assert!(matching("ann b", &records, MatchTier::LabelExact).is_empty());
    assert!(matching("ann b", &records, MatchTier::StateName).is_empty());
}

#[test]
fn tiers_are_ordered_per_kind() {
    assert_eq!(tiers(EntityKind::Team), vec![MatchTier::TeamKey]);
    assert_eq!(tiers(EntityKind::User), vec![MatchTier::UserExact, MatchTier::UserSubstring]);
    assert_eq!(tiers(EntityKind::WorkflowState), vec![MatchTier::StateName]);
    assert_eq!(tiers(EntityKind::Label), vec![MatchTier::LabelExact, MatchTier::LabelIgnoreCase]);
    assert_eq!(MatchTier::UserSubstring.kind(), EntityKind::User);
    assert!(MatchTier::StateName.folds());
    assert!(MatchTier::UserSubstring.folds());
    assert!(!MatchTier::LabelIgnoreCase.folds());
}

#[test]
fn tiers_search_their_fields_in_order() {
    assert_eq!(MatchTier::TeamKey.fields(), vec![Field::Key]);
    assert_eq!(MatchTier::UserExact.fields(), vec![Field::DisplayName, Field::Name, Field::Email]);
    assert_eq!(MatchTier::UserSubstring.fields(), MatchTier::UserExact.fields());
    assert_eq!(MatchTier::StateName.fields(), vec![Field::Name]);
    assert_eq!(MatchTier::LabelExact.fields(), vec![Field::Name]);
    assert_eq!(MatchTier::LabelIgnoreCase.fields(), vec![Field::Name]);
    assert_eq!(MatchTier::TeamKey.comparison(), Comparison::IgnoreAsciiCase);
    assert_eq!(MatchTier::UserExact.comparison(), Comparison::IgnoreAsciiCase);
    assert_eq!(MatchTier::UserSubstring.comparison(), Comparison::LowercaseContains);
    assert_eq!(MatchTier::StateName.comparison(), Comparison::LowercaseEquals);
    assert_eq!(MatchTier::LabelExact.comparison(), Comparison::Exact);
    assert_eq!(MatchTier::LabelIgnoreCase.comparison(), Comparison::IgnoreAsciiCase);
    let users = vec![user("u1", Some("D"), Some("N"), Some("E"))];
    let record = CandidateRecord::of_user(&users[0]);
    assert_eq!(Field::Key.read(&record), None);
    assert_eq!(Field::Name.read(&record), Some("N"));
    assert_eq!(Field::DisplayName.read(&record), Some("D"));
    assert_eq!(Field::Email.read(&record), Some("E"));
}

#[test]
fn a_team_is_not_found_by_its_name() {
    let teams = vec![team("t1", Some("ENG"), Some("Platform"))];
    assert!(matches!(team_id(&teams, "Platform"), Err(ResolveError::NotFound { .. })));
    assert!(matches!(team_id(&teams, "en"), Err(ResolveError::NotFound { .. })));
    assert!(matches!(team_id(&[], "ENG"), Err(ResolveError::NotFound { .. })));
}

#[test]
fn resolve_reports_the_deciding_tier_and_all_candidates() {
    let labels = vec![label("l1", Some("Bug")), label("l2", Some("bug")), label("l3", Some("Feature"))];
    let records: Vec<CandidateRecord> = labels.iter().map(CandidateRecord::of_label).collect();
    match resolve(EntityKind::Label, "bUg", &records) {
        ResolutionOutcome::Ambiguous { tier, candidates } => {
            assert_eq!(tier, MatchTier::LabelIgnoreCase);
            assert_eq!(candidates.len(), 2);
            assert_eq!(render(&candidates), "Bug [l1], bug [l2]");
        }
        other => panic!("expected ambiguity, got {:?}", other),
    }
    match resolve(EntityKind::Label, "Feature", &records) {
        ResolutionOutcome::Resolved(id) => assert_eq!(id, "l3"),
        other => panic!("expected a resolution, got {:?}", other),
    }
    assert!(matches!(resolve(EntityKind::Label, "Chore", &records), ResolutionOutcome::NotFound));
    assert!(matches!(resolve(EntityKind::User, "Bug", &records), ResolutionOutcome::NotFound));
}

#[test]
fn user_rendering_falls_back_through_the_names() {
    let users = vec![
        user("u1", Some("Display"), Some("name"), Some("d@co.com")),
        user("u2", None, Some("name"), Some("")),
        user("u3", None, None, None),
        user("u4", None, None, Some("x@co.com")),
    ];
    let refs: Vec<&User> = users.iter().collect();
    assert_eq!(render_user_candidates(&refs), "Display <d@co.com>, name, Unknown, Unknown <x@co.com>");
}

#[test]
fn error_message_is_the_text_of_each_variant() {
    let users = alex_directory();
    let err = find_user(&users, "alex").unwrap_err();
    assert!(err.message().starts_with("Ambiguous user 'alex'."));
    let err = find_user(&users, "nobody").unwrap_err();
    assert_eq!(err.message(), "User 'nobody' not found");
    let err = user_request(" ").unwrap_err();
    assert_eq!(err.message(), "User cannot be empty");
}
