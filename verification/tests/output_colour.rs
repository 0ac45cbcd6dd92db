use linear_cli::api::types::{Issue, WorkflowState};
use linear_cli::output::{emphasised, issue_detail, state_cell, state_colored};

fn issue_in(name: &str, state_type: &str) -> Issue {
    Issue {
        id: "issue-id".to_string(),
        identifier: Some("ENG-3".to_string()),
        title: Some("Title".to_string()),
        description: None,
        priority: None,
        url: None,
        created_at: None,
        updated_at: None,
        state: Some(WorkflowState {
            id: "s".to_string(),
            name: Some(name.to_string()),
            state_type: Some(state_type.to_string()),
            color: None,
        }),
        team: None,
        assignee: None,
        labels: None,
        project: None,
    }
}

#[test]
fn styled_states_with_colour() {
    colored::control::set_override(true);
    assert_eq!(state_colored("Done", "completed"), "\x1b[32mDone\x1b[0m");
    assert_eq!(state_colored("Dropped", "canceled"), "\x1b[9;31mDropped\x1b[0m");
    assert_eq!(state_colored("Dropped", "cancelled"), "\x1b[9;31mDropped\x1b[0m");
    assert_eq!(state_colored("Doing", "started"), "\x1b[33mDoing\x1b[0m");
    assert_eq!(state_colored("Todo", "unstarted"), "\x1b[2mTodo\x1b[0m");
    assert_eq!(state_colored("Backlog", "backlog"), "Backlog");
    assert_eq!(emphasised("Description"), "\x1b[1mDescription\x1b[0m");
}

#[test]
fn styled_cells_are_cut_before_they_are_styled() {
    colored::control::set_override(true);
    let issue = issue_in("In Progress", "started");
    assert_eq!(state_cell(&issue, 6), "\x1b[33mIn Pr…\x1b[0m");
    let lines = issue_detail(&issue);
    assert_eq!(lines[0], "\x1b[1mENG-3  Title\x1b[0m");
    assert_eq!(lines[2], "State:    \x1b[33mIn Progress\x1b[0m");
}
