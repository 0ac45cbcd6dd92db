//! Records as the remote service returns them. Every field but `id` may be
//! absent.

use vstd::prelude::*;

verus! {

/// The envelope of every answer: the payload, the errors, or both.
#[derive(Debug)]
pub struct GraphQLResponse<T> {
    pub data: Option<T>,
    pub errors: Option<Vec<GraphQLError>>,
}

#[derive(Debug)]
pub struct GraphQLError {
    pub message: String,
}

/// One page of records, in the order the service sent them.
#[derive(Debug, Clone)]
pub struct Connection<T> {
    pub nodes: Vec<T>,
    pub page_info: Option<PageInfo>,
}

#[derive(Debug, Clone)]
pub struct PageInfo {
    pub has_next_page: bool,
    pub end_cursor: Option<String>,
}

#[derive(Debug, Clone)]
pub struct User {
    pub id: String,
    pub name: Option<String>,
    pub email: Option<String>,
    pub display_name: Option<String>,
    pub active: Option<bool>,
}

#[derive(Debug, Clone)]
pub struct Team {
    pub id: String,
    pub key: Option<String>,
    pub name: Option<String>,
}

#[derive(Debug, Clone)]
pub struct WorkflowState {
    pub id: String,
    pub name: Option<String>,
    pub state_type: Option<String>,
    pub color: Option<String>,
}

#[derive(Debug, Clone)]
pub struct Label {
    pub id: String,
    pub name: Option<String>,
    pub color: Option<String>,
}

#[derive(Debug, Clone)]
pub struct Project {
    pub id: String,
    pub name: Option<String>,
}

/// An issue, with the fields that the client shows or decides on.
#[derive(Debug, Clone)]
pub struct Issue {
    pub id: String,
    pub identifier: Option<String>,
    pub title: Option<String>,
    pub description: Option<String>,
    pub priority: Option<i32>,
    pub url: Option<String>,
    pub created_at: Option<String>,
    pub updated_at: Option<String>,
    pub state: Option<WorkflowState>,
    pub team: Option<Team>,
    pub assignee: Option<User>,
    pub labels: Option<Connection<Label>>,
    pub project: Option<Project>,
}

#[derive(Debug)]
pub struct ViewerResponse {
    pub viewer: User,
}

#[derive(Debug)]
pub struct TeamsResponse {
    pub teams: Connection<Team>,
}

#[derive(Debug)]
pub struct IssuesResponse {
    pub issues: Connection<Issue>,
}

#[derive(Debug)]
pub struct IssueResponse {
    pub issue: Issue,
}

#[derive(Debug)]
pub struct IssueSearchResponse {
    pub issue_search: Connection<Issue>,
}

#[derive(Debug)]
pub struct WorkflowStatesResponse {
    pub workflow_states: Connection<WorkflowState>,
}

#[derive(Debug)]
pub struct UsersResponse {
    pub users: Connection<User>,
}

#[derive(Debug)]
pub struct LabelsResponse {
    pub issue_labels: Connection<Label>,
}

#[derive(Debug)]
pub struct MutationResult {
    pub success: bool,
    pub issue: Option<Issue>,
}

#[derive(Debug)]
pub struct IssueCreateResponse {
    pub issue_create: MutationResult,
}

#[derive(Debug)]
pub struct IssueUpdateResponse {
    pub issue_update: MutationResult,
}

/// The characters of a text that may be absent.
pub open spec fn opt_text(value: Option<String>) -> Option<Seq<char>> {
    match value {
        Some(s) => Some(s@),
        None => None,
    }
}

/// A borrowed view of a text that may be absent.
pub fn opt_str(value: &Option<String>) -> (r: Option<&str>)
    ensures
        r is Some == value is Some,
        r matches Some(s) ==> s@ == value->0@,
{
    match value {
        Some(s) => Some(s.as_str()),
        None => None,
    }
}

} // verus!
