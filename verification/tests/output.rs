use linear_cli::api::types::{Connection, Issue, Label, Project, Team, User, WorkflowState};
use linear_cli::output::{
    compute_issue_table_widths, detail_lines, hyperlink, issue_detail, issue_row, issue_table,
    priority_label, state_cell, state_colored, state_style, supports_hyperlinks, team_table,
    terminal_width, truncate_visible, width_of, IssueTableWidths, StateStyle,
};

fn issue(identifier: Option<&str>, title: Option<&str>) -> Issue {
    Issue {
        id: "issue-id".to_string(),
        identifier: identifier.map(|s| s.to_string()),
        title: title.map(|s| s.to_string()),
        description: None,
        priority: None,
        url: None,
        created_at: None,
        updated_at: None,
        state: None,
        team: None,
        assignee: None,
        labels: None,
        project: None,
    }
}

fn state(name: Option<&str>, state_type: Option<&str>) -> WorkflowState {
    WorkflowState {
        id: "s".to_string(),
        name: name.map(|s| s.to_string()),
        state_type: state_type.map(|s| s.to_string()),
        color: None,
    }
}

fn assignee(display: Option<&str>, name: Option<&str>) -> User {
    User {
        id: "u".to_string(),
        name: name.map(|s| s.to_string()),
        email: None,
        display_name: display.map(|s| s.to_string()),
        active: None,
    }
}

fn label(name: Option<&str>) -> Label {
    Label { id: "l".to_string(), name: name.map(|s| s.to_string()), color: None }
}

#[test]
fn priority_labels() {
    assert_eq!(priority_label(1), "Urgent");
    assert_eq!(priority_label(2), "High");
    assert_eq!(priority_label(3), "Medium");
    assert_eq!(priority_label(4), "Low");
    assert_eq!(priority_label(0), "None");
    assert_eq!(priority_label(5), "None");
    assert_eq!(priority_label(-1), "None");
    assert_eq!(priority_label(i32::MAX), "None");
    assert_eq!(priority_label(i32::MIN), "None");
}

#[test]
fn state_styles() {
    assert_eq!(state_style("completed"), StateStyle::Green);
    assert_eq!(state_style("canceled"), StateStyle::RedStruck);
    assert_eq!(state_style("cancelled"), StateStyle::RedStruck);
    assert_eq!(state_style("started"), StateStyle::Yellow);
    assert_eq!(state_style("unstarted"), StateStyle::Dimmed);
    assert_eq!(state_style("backlog"), StateStyle::Plain);
    assert_eq!(state_style(""), StateStyle::Plain);
    assert_eq!(state_style("Completed"), StateStyle::Plain);
}

#[test]
fn plain_states_keep_their_name() {
    assert_eq!(state_colored("Backlog", "backlog"), "Backlog");
    assert_eq!(state_colored("Triage", ""), "Triage");
    assert_eq!(state_colored("", "triage"), "");
}

#[test]
fn styled_states_without_colour_keep_their_name() {
    colored::control::set_override(false);
    assert_eq!(state_colored("Done", "completed"), "Done");
    assert_eq!(state_colored("Dropped", "canceled"), "Dropped");
    assert_eq!(state_colored("Doing", "started"), "Doing");
    assert_eq!(state_colored("Todo", "unstarted"), "Todo");
}

#[test]
fn truncation() {
    assert_eq!(truncate_visible("hello", 0), "");
    assert_eq!(truncate_visible("hello", 1), "…");
    assert_eq!(truncate_visible("hello", 2), "h…");
    assert_eq!(truncate_visible("hello", 4), "hel…");
    assert_eq!(truncate_visible("hello", 5), "hello");
    assert_eq!(truncate_visible("hello", 6), "hello");
    assert_eq!(truncate_visible("", 0), "");
    assert_eq!(truncate_visible("", 3), "");
    assert_eq!(truncate_visible("héllo wörld", 7), "héllo …");
    assert_eq!(truncate_visible("日本語のテキスト", 4), "日本語…");
    assert_eq!(truncate_visible("日本語", 3), "日本語");
    for max in 0..12 {
        assert!(truncate_visible("héllo wörld", max).chars().count() <= max);
    }
}

#[test]
fn hyperlinks() {
    assert_eq!(
        hyperlink("ENG-1", "https://x.test/ENG-1"),
        "\x1b]8;;https://x.test/ENG-1\x1b\\ENG-1\x1b]8;;\x1b\\"
    );
    assert_eq!(hyperlink("", ""), "\x1b]8;;\x1b\\\x1b]8;;\x1b\\");
}

#[test]
fn hyperlink_support() {
    assert!(supports_hyperlinks(true, Some("xterm-256color")));
    assert!(supports_hyperlinks(true, None));
    assert!(!supports_hyperlinks(true, Some("dumb")));
    assert!(supports_hyperlinks(true, Some("DUMB")));
    assert!(!supports_hyperlinks(false, Some("xterm")));
    assert!(!supports_hyperlinks(false, None));
}

#[test]
fn terminal_widths() {
    assert_eq!(terminal_width(Some(80), Some("200")), 80);
    assert_eq!(terminal_width(Some(0), None), 0);
    assert_eq!(terminal_width(None, Some("200")), 200);
    assert_eq!(terminal_width(None, Some("wide")), 120);
    assert_eq!(terminal_width(None, Some("")), 120);
    assert_eq!(terminal_width(None, Some("-3")), 120);
    assert_eq!(terminal_width(None, None), 120);
    assert_eq!(width_of(None, Some(7)), 7);
    assert_eq!(width_of(Some(u16::MAX), Some(7)), 65535);
}

#[test]
fn widths_of_no_issues_are_the_minima() {
    let widths = compute_issue_table_widths(&[], 120);
    assert_eq!(widths, IssueTableWidths { id: 2, title: 120 - 2 - 5 - 10 - 8 - 18, state: 5, assignee: 10 });
}

#[test]
fn widths_follow_the_longest_cell_within_bounds() {
    let mut a = issue(Some("ENG-123"), Some("t"));
    a.state = Some(state(Some("In Progress"), None));
    a.assignee = Some(assignee(Some("Alexandra K"), Some("alex")));
    let mut b = issue(Some("A-VERY-LONG-IDENTIFIER"), None);
    b.state = Some(state(Some("A state with quite a long name"), None));
    b.assignee = Some(assignee(None, Some("Someone With A Very Long Name Indeed")));
    let widths = compute_issue_table_widths(&[a.clone()], 200);
    assert_eq!(widths, IssueTableWidths { id: 7, title: 110, state: 11, assignee: 11 });
    let widths = compute_issue_table_widths(&[a.clone(), b.clone()], 200);
    assert_eq!(widths, IssueTableWidths { id: 16, title: 110, state: 20, assignee: 24 });
    let widths = compute_issue_table_widths(&[b, a], 100);
    assert_eq!(widths, IssueTableWidths { id: 16, title: 16, state: 20, assignee: 24 });
}

#[test]
fn title_width_by_available_space() {
    // The other columns of an empty listing and the frame take 2 + 5 + 10 + 8 + 18 = 43.
    let title = |terminal: usize| compute_issue_table_widths(&[], terminal).title;
    assert_eq!(title(0), 16);
    assert_eq!(title(43), 16);
    assert_eq!(title(43 + 15), 16);
    assert_eq!(title(43 + 16), 16);
    assert_eq!(title(43 + 17), 17);
    assert_eq!(title(43 + 27), 27);
    assert_eq!(title(43 + 28), 28);
    assert_eq!(title(43 + 110), 110);
    assert_eq!(title(43 + 111), 110);
    assert_eq!(title(usize::MAX), 110);
}

#[test]
fn widths_count_characters_not_bytes() {
    let mut a = issue(Some("ÉÉÉ"), None);
    a.assignee = Some(assignee(Some("日本語日本語日本語日本語"), None));
    let widths = compute_issue_table_widths(&[a], 120);
    assert_eq!(widths.id, 3);
    assert_eq!(widths.assignee, 12);
}

#[test]
fn issue_rows() {
    let widths = IssueTableWidths { id: 5, title: 8, state: 6, assignee: 10 };
    let mut a = issue(Some("ENG-123"), Some("A rather long title"));
    a.priority = Some(2);
    a.url = Some("https://x.test/a".to_string());
    a.assignee = Some(assignee(None, Some("alexandra-k")));
    let row = issue_row(&a, &widths, false, "State".to_string());
    assert_eq!(row, vec!["ENG-…", "A rathe…", "State", "High", "alexandra…"]);
    let row = issue_row(&a, &widths, true, "State".to_string());
    assert_eq!(row[0], "\x1b]8;;https://x.test/a\x1b\\ENG-…\x1b]8;;\x1b\\");
    let b = issue(None, None);
    let row = issue_row(&b, &widths, true, "—".to_string());
    assert_eq!(row, vec!["—", "—", "—", "None", "Unassigned"]);
}

#[test]
fn state_cells() {
    colored::control::set_override(false);
    let mut a = issue(None, None);
    assert_eq!(state_cell(&a, 6), "—");
    a.state = Some(state(Some("In Progress"), Some("triage")));
    assert_eq!(state_cell(&a, 6), "In Pr…");
    assert_eq!(state_cell(&a, 20), "In Progress");
    a.state = Some(state(None, None));
    assert_eq!(state_cell(&a, 6), "—");
    a.state = Some(state(Some("In Progress"), Some("started")));
    assert_eq!(state_cell(&a, 6), "In Pr…");
}

#[test]
fn empty_tables_are_a_sentence() {
    assert_eq!(issue_table(&[], 120, true), "No issues found.");
    assert_eq!(team_table(&[]), "No teams found.");
}

#[test]
fn team_table_is_rounded() {
    let teams = vec![
        Team { id: "t1".to_string(), key: Some("ENG".to_string()), name: Some("Engineering".to_string()) },
        Team { id: "t2".to_string(), key: None, name: Some("Operations".to_string()) },
        Team { id: "t3".to_string(), key: Some("X".to_string()), name: None },
    ];
    let expected = "\
╭─────┬─────────────╮
│ Key │ Name        │
├─────┼─────────────┤
│ ENG │ Engineering │
│ —   │ Operations  │
│ X   │ —           │
╰─────┴─────────────╯";
    assert_eq!(team_table(&teams), expected);
}

#[test]
fn issue_table_is_rounded_and_fitted() {
    colored::control::set_override(false);
    let mut a = issue(Some("ENG-1"), Some("A title that is much longer than sixteen characters"));
    a.priority = Some(1);
    a.state = Some(state(Some("Todo"), Some("unstarted")));
    a.assignee = Some(assignee(Some("Alex Kim"), None));
    a.url = Some("https://x.test/ENG-1".to_string());
    let b = issue(None, None);
    let expected = "\
╭───────┬──────────────────┬───────┬──────────┬────────────╮
│ ID    │ Title            │ State │ Priority │ Assignee   │
├───────┼──────────────────┼───────┼──────────┼────────────┤
│ ENG-1 │ A title that is… │ Todo  │ Urgent   │ Alex Kim   │
│ —     │ —                │ —     │ None     │ Unassigned │
╰───────┴──────────────────┴───────┴──────────┴────────────╯";
    assert_eq!(issue_table(&[a, b], 40, false), expected);
}

#[test]
fn detail_lines_of_a_full_issue() {
    let mut a = issue(Some("ENG-1"), Some("Fix it"));
    a.description = Some("Broken since Monday.".to_string());
    a.priority = Some(3);
    a.url = Some("https://x.test/ENG-1".to_string());
    a.team = Some(Team { id: "t".to_string(), key: Some("ENG".to_string()), name: Some("Engineering".to_string()) });
    a.assignee = Some(assignee(None, Some("alex")));
    a.labels = Some(Connection {
        nodes: vec![label(Some("Bug")), label(None), label(Some("Backend"))],
        page_info: None,
    });
    a.project = Some(Project { id: "p".to_string(), name: Some("Core".to_string()) });
    let lines = detail_lines(&a, "HEAD".to_string(), "STATE", "SECTION".to_string());
    assert_eq!(
        lines,
        vec![
            "HEAD",
            "",
            "State:    STATE",
            "Priority: Medium",
            "Team:     Engineering",
            "Assignee: alex",
            "Labels:   Bug, Backend",
            "Project:  Core",
            "URL:      https://x.test/ENG-1",
            "",
            "SECTION",
            "Broken since Monday.",
        ]
    );
}

#[test]
fn detail_lines_of_a_bare_issue() {
    let mut a = issue(None, None);
    a.description = Some(String::new());
    a.labels = Some(Connection { nodes: vec![label(None), label(Some(""))], page_info: None });
    let lines = detail_lines(&a, "H".to_string(), "S", "D".to_string());
    assert_eq!(
        lines,
        vec![
            "H",
            "",
            "State:    S",
            "Priority: None",
            "Team:     —",
            "Assignee: Unassigned",
            "Project:  —",
            "URL:      —",
        ]
    );
}

#[test]
fn issue_detail_without_colour() {
    colored::control::set_override(false);
    let mut a = issue(Some("ENG-2"), None);
    a.state = Some(state(Some("Done"), Some("completed")));
    a.description = Some("Text".to_string());
    let lines = issue_detail(&a);
    assert_eq!(
        lines,
        vec![
            "ENG-2  —",
            "",
            "State:    Done",
            "Priority: None",
            "Team:     —",
            "Assignee: Unassigned",
            "Project:  —",
            "URL:      —",
            "",
            "Description",
            "Text",
        ]
    );
    let b = issue(None, Some("T"));
    assert_eq!(issue_detail(&b)[0], "—  T");
    assert_eq!(issue_detail(&b)[2], "State:    —");
    assert_eq!(issue_detail(&b).len(), 8);
}
