//! What the client shows: labels, styles, cell texts and column widths.
//! Nothing here prints; the caller does.

use vstd::prelude::*;
use vstd::string::*;
use colored::Colorize;
use tabled::builder::Builder;
use tabled::settings::Style;
use crate::api::types::{Issue, Label, Team};
use crate::text::{has_substring, join, join_strings, str_eq, texts};

verus! {

/// The name of a priority: 1 to 4 from `Urgent` down to `Low`, anything
/// else `None`.
pub open spec fn priority_text(p: int) -> Seq<char> {
    if p == 1 {
        "Urgent"@
    } else if p == 2 {
        "High"@
    } else if p == 3 {
        "Medium"@
    } else if p == 4 {
        "Low"@
    } else {
        "None"@
    }
}

/// The name of a priority.
pub fn priority_label(p: i32) -> (r: &'static str)
    ensures
        r@ == priority_text(p as int),
{
    match p {
        1 => "Urgent",
        2 => "High",
        3 => "Medium",
        4 => "Low",
        _ => "None",
    }
}

/// How the name of a workflow state is set off, by the state's type.
#[derive(Clone, Copy, Debug, PartialEq, Eq, Structural)]
pub enum StateStyle {
    Green,
    RedStruck,
    Yellow,
    Dimmed,
    Plain,
}

/// The style of a state type: `completed` is green, `canceled` in either
/// spelling red and struck through, `started` yellow, `unstarted` dimmed,
/// and every other type plain.
pub open spec fn style_of(state_type: Seq<char>) -> StateStyle {
    if state_type == "completed"@ {
        StateStyle::Green
    } else if state_type == "canceled"@ || state_type == "cancelled"@ {
        StateStyle::RedStruck
    } else if state_type == "started"@ {
        StateStyle::Yellow
    } else if state_type == "unstarted"@ {
        StateStyle::Dimmed
    } else {
        StateStyle::Plain
    }
}

/// The style of a state type.
pub fn state_style(state_type: &str) -> (r: StateStyle)
    ensures
        r == style_of(state_type@),
{
    if str_eq(state_type, "completed") {
        StateStyle::Green
    } else if str_eq(state_type, "canceled") || str_eq(
        state_type,
        "cancelled",
    ) {
        StateStyle::RedStruck
    } else if str_eq(state_type, "started") {
        StateStyle::Yellow
    } else if str_eq(state_type, "unstarted") {
        StateStyle::Dimmed
    } else {
        StateStyle::Plain
    }
}

/// The escape sequence that starts a style; nothing for the plain one.
pub open spec fn escape_of(style: StateStyle) -> Seq<char> {
    match style {
        StateStyle::Green => "\x1b[32m"@,
        StateStyle::RedStruck => "\x1b[9;31m"@,
        StateStyle::Yellow => "\x1b[33m"@,
        StateStyle::Dimmed => "\x1b[2m"@,
        StateStyle::Plain => Seq::empty(),
    }
}

/// What a styled text comes out as. Whether styles are written at all is
/// for the environment to say, so there are two outcomes: the text as it
/// is, or the text between `escape` and the sequence that resets the
/// style. Of a text that itself holds a reset sequence nothing is said.
pub open spec fn styled_as(out: Seq<char>, text: Seq<char>, escape: Seq<char>) -> bool {
    !has_substring(text, "\x1b[0m"@) ==> out == text || out == escape + text + "\x1b[0m"@
}

/// `Colorize::green` and the `Display` of the styled value: the text, in
/// green where styles are written.
#[verifier::external_body]
fn paint_green(text: &str) -> (r: String)
    ensures
        styled_as(r@, text@, "\x1b[32m"@),
{
    text.green().to_string()
}

/// `Colorize::red`, `Colorize::strikethrough` and the `Display` of the
/// styled value: the text, red and struck through where styles are
/// written.
#[verifier::external_body]
fn paint_red_struck(text: &str) -> (r: String)
    ensures
        styled_as(r@, text@, "\x1b[9;31m"@),
{
    text.red().strikethrough().to_string()
}

/// `Colorize::yellow` and the `Display` of the styled value: the text, in
/// yellow where styles are written.
#[verifier::external_body]
fn paint_yellow(text: &str) -> (r: String)
    ensures
        styled_as(r@, text@, "\x1b[33m"@),
{
    text.yellow().to_string()
}

/// `Colorize::dimmed` and the `Display` of the styled value: the text,
/// dimmed where styles are written.
#[verifier::external_body]
fn paint_dimmed(text: &str) -> (r: String)
    ensures
        styled_as(r@, text@, "\x1b[2m"@),
{
    text.dimmed().to_string()
}

/// `Colorize::bold` and the `Display` of the styled value: the text, bold
/// where styles are written.
#[verifier::external_body]
fn paint_bold(text: &str) -> (r: String)
    ensures
        styled_as(r@, text@, "\x1b[1m"@),
{
    text.bold().to_string()
}

/// The name of a workflow state in the style of its type. A plain style
/// returns the name as it is.
pub fn state_colored(name: &str, state_type: &str) -> (r: String)
    ensures
        styled_as(r@, name@, escape_of(style_of(state_type@))),
        style_of(state_type@) == StateStyle::Plain ==> r@ == name@,
{
    match state_style(state_type) {
        StateStyle::Green => paint_green(name),
        StateStyle::RedStruck => paint_red_struck(name),
        StateStyle::Yellow => paint_yellow(name),
        StateStyle::Dimmed => paint_dimmed(name),
        StateStyle::Plain => String::from_str(name),
    }
}

/// A text emphasised for the terminal: bold where styles are written.
pub fn emphasised(text: &str) -> (r: String)
    ensures
        styled_as(r@, text@, "\x1b[1m"@),
{
    paint_bold(text)
}

/// The width assumed for a terminal that tells nothing of itself.
pub const DEFAULT_TERMINAL_WIDTH: usize = 120;

/// The number that a text spells, as `str::parse` reads it for `usize`;
/// none where it reads none.
pub uninterp spec fn parsed_width(text: Seq<char>) -> Option<usize>;

/// `str::parse` for `usize`, with its error dropped: the number that the
/// text spells, which depends on the text alone.
#[verifier::external_body]
fn parse_width(text: &str) -> (r: Option<usize>)
    ensures
        r == parsed_width(text@),
{
    text.parse::<usize>().ok()
}

/// The width of the terminal: what the terminal reports; else what the
/// `COLUMNS` variable spells; else the default.
pub open spec fn width_from(reported: Option<u16>, columns: Option<usize>) -> usize {
    match reported {
        Some(width) => width as usize,
        None => match columns {
            Some(width) => width,
            None => DEFAULT_TERMINAL_WIDTH,
        },
    }
}

/// The width of the terminal, from what it reports and what `COLUMNS` was
/// parsed to.
pub fn width_of(reported: Option<u16>, columns: Option<usize>) -> (r: usize)
    ensures
        r == width_from(reported, columns),
{
    match reported {
        Some(width) => width as usize,
        None => match columns {
            Some(width) => width,
            None => DEFAULT_TERMINAL_WIDTH,
        },
    }
}

/// The width of the terminal, from what it reports and the text of the
/// `COLUMNS` variable, which is read only where the terminal reports
/// nothing.
pub fn terminal_width(reported: Option<u16>, columns: Option<&str>) -> (r: usize)
    ensures
        r == width_from(
            reported,
            match columns {
                Some(text) => parsed_width(text@),
                None => None,
            },
        ),
{
    match reported {
        Some(width) => width_of(Some(width), None),
        None => match columns {
            Some(text) => width_of(None, parse_width(text)),
            None => width_of(None, None),
        },
    }
}

/// Whether links may be written: on a terminal that is not `dumb`.
pub fn supports_hyperlinks(is_terminal: bool, term: Option<&str>) -> (r: bool)
    ensures
        r == (is_terminal && !(term matches Some(name) && name@ == "dumb"@)),
{
    if !is_terminal {
        return false;
    }
    match term {
        Some(name) => !str_eq(name, "dumb"),
        None => true,
    }
}

/// A text cut to at most `max` characters. A text that is cut ends in an
/// ellipsis, which counts as one of the `max`.
pub open spec fn truncated(text: Seq<char>, max: nat) -> Seq<char> {
    if max == 0 {
        Seq::empty()
    } else if text.len() <= max {
        text
    } else {
        text.take(max - 1) + "\u{2026}"@
    }
}

/// Cuts a text to at most `max_chars` characters.
pub fn truncate_visible(text: &str, max_chars: usize) -> (r: String)
    ensures
        r@ == truncated(text@, max_chars as nat),
        r@.len() <= max_chars,
{
    if max_chars == 0 {
        return String::new();
    }
    if text.unicode_len() <= max_chars {
        return String::from_str(text);
    }
    proof {
        reveal_strlit("\u{2026}");
    }
    let mut out = String::from_str(text.substring_char(0, max_chars - 1));
    out.append("\u{2026}");
    out
}

/// A label that a terminal shows as a link to `url`.
pub open spec fn hyperlinked(label: Seq<char>, url: Seq<char>) -> Seq<char> {
    "\x1b]8;;"@ + url + "\x1b\\"@ + label + "\x1b]8;;\x1b\\"@
}

/// Wraps a label in the escape sequences of a terminal hyperlink.
pub fn hyperlink(label: &str, url: &str) -> (r: String)
    ensures
        r@ == hyperlinked(label@, url@),
{
    let mut out = String::from_str("\x1b]8;;");
    out.append(url);
    out.append("\x1b\\");
    out.append(label);
    out.append("\x1b]8;;\x1b\\");
    out
}

pub const MIN_TITLE_WIDTH: usize = 16;

pub const PREFERRED_TITLE_WIDTH: usize = 28;

pub const MAX_TITLE_WIDTH: usize = 110;

pub const MIN_ID_WIDTH: usize = 2;

pub const MAX_ID_WIDTH: usize = 16;

pub const MIN_STATE_WIDTH: usize = 5;

pub const MAX_STATE_WIDTH: usize = 20;

pub const MIN_ASSIGNEE_WIDTH: usize = 10;

pub const MAX_ASSIGNEE_WIDTH: usize = 24;

/// The characters that the frame of the issue table takes of a line.
pub const TABLE_OVERHEAD: usize = 18;

pub const PRIORITY_WIDTH: usize = 8;

/// The widths, in characters, of the columns of the issue table that are
/// cut to fit.
#[derive(Clone, Copy, Debug, PartialEq, Eq, Structural)]
pub struct IssueTableWidths {
    pub id: usize,
    pub title: usize,
    pub state: usize,
    pub assignee: usize,
}

/// A text, or `fallback` where it is absent.
pub open spec fn text_or(value: Option<String>, fallback: Seq<char>) -> Seq<char> {
    match value {
        Some(text) => text@,
        None => fallback,
    }
}

/// What stands for an issue in the column of identifiers.
pub open spec fn identifier_text(issue: Issue) -> Seq<char> {
    text_or(issue.identifier, "\u{2014}"@)
}

/// What stands for an issue in the column of titles.
pub open spec fn title_text(issue: Issue) -> Seq<char> {
    text_or(issue.title, "\u{2014}"@)
}

/// The name of an issue's workflow state, or a dash.
pub open spec fn state_name_text(issue: Issue) -> Seq<char> {
    match issue.state {
        Some(state) => text_or(state.name, "\u{2014}"@),
        None => "\u{2014}"@,
    }
}

/// The type of an issue's workflow state, or nothing.
pub open spec fn state_type_text(issue: Issue) -> Seq<char> {
    match issue.state {
        Some(state) => text_or(state.state_type, ""@),
        None => ""@,
    }
}

/// Who an issue is assigned to: the display name, else the name, else
/// `Unassigned`.
pub open spec fn assignee_text(issue: Issue) -> Seq<char> {
    match issue.assignee {
        Some(user) => match user.display_name {
            Some(display) => display@,
            None => text_or(user.name, "Unassigned"@),
        },
        None => "Unassigned"@,
    }
}

/// The length of the longest of some texts; 0 where there is none.
pub open spec fn longest(parts: Seq<Seq<char>>) -> nat
    decreases parts.len(),
{
    if parts.len() == 0 {
        0
    } else if longest(parts.drop_last()) >= parts.last().len() {
        longest(parts.drop_last())
    } else {
        parts.last().len()
    }
}

/// A number brought into the range from `low` to `high`.
pub open spec fn clamped(n: nat, low: nat, high: nat) -> nat {
    if n < low {
        low
    } else if n > high {
        high
    } else {
        n
    }
}

/// The width of the title column for what the other columns leave of a
/// line: all of it up to the maximum where the preferred width fits, and
/// never less than the minimum.
pub open spec fn title_width(available: nat) -> nat {
    if available >= PREFERRED_TITLE_WIDTH {
        if available <= MAX_TITLE_WIDTH {
            available
        } else {
            MAX_TITLE_WIDTH as nat
        }
    } else if available >= MIN_TITLE_WIDTH {
        available
    } else {
        MIN_TITLE_WIDTH as nat
    }
}

/// What a line of `terminal_width` characters leaves for the title once
/// the other columns and the frame are taken off.
pub open spec fn available_for_title(terminal_width: nat, id: nat, state: nat, assignee: nat) -> nat {
    let taken = id + state + assignee + PRIORITY_WIDTH + TABLE_OVERHEAD;
    if terminal_width >= taken {
        (terminal_width - taken) as nat
    } else {
        0
    }
}

pub open spec fn id_width(issues: Seq<Issue>) -> nat {
    clamped(
        longest(issues.map_values(|i: Issue| identifier_text(i))),
        MIN_ID_WIDTH as nat,
        MAX_ID_WIDTH as nat,
    )
}

pub open spec fn state_width(issues: Seq<Issue>) -> nat {
    clamped(
        longest(issues.map_values(|i: Issue| state_name_text(i))),
        MIN_STATE_WIDTH as nat,
        MAX_STATE_WIDTH as nat,
    )
}

pub open spec fn assignee_width(issues: Seq<Issue>) -> nat {
    clamped(
        longest(issues.map_values(|i: Issue| assignee_text(i))),
        MIN_ASSIGNEE_WIDTH as nat,
        MAX_ASSIGNEE_WIDTH as nat,
    )
}

/// The column widths for some issues on a line of `terminal_width`
/// characters.
pub open spec fn table_widths(issues: Seq<Issue>, terminal_width: nat) -> IssueTableWidths {
    IssueTableWidths {
        id: id_width(issues) as usize,
        title: title_width(
            available_for_title(
                terminal_width,
                id_width(issues),
                state_width(issues),
                assignee_width(issues),
            ),
        ) as usize,
        state: state_width(issues) as usize,
        assignee: assignee_width(issues) as usize,
    }
}

fn identifier_of(issue: &Issue) -> (r: &str)
    ensures
        r@ == identifier_text(*issue),
{
    match &issue.identifier {
        Some(text) => text.as_str(),
        None => "\u{2014}",
    }
}

fn title_of(issue: &Issue) -> (r: &str)
    ensures
        r@ == title_text(*issue),
{
    match &issue.title {
        Some(text) => text.as_str(),
        None => "\u{2014}",
    }
}

fn state_name_of(issue: &Issue) -> (r: &str)
    ensures
        r@ == state_name_text(*issue),
{
    match &issue.state {
        Some(state) => match &state.name {
            Some(text) => text.as_str(),
            None => "\u{2014}",
        },
        None => "\u{2014}",
    }
}

fn state_type_of(issue: &Issue) -> (r: &str)
    ensures
        r@ == state_type_text(*issue),
{
    match &issue.state {
        Some(state) => match &state.state_type {
            Some(text) => text.as_str(),
            None => "",
        },
        None => "",
    }
}

fn assignee_of(issue: &Issue) -> (r: &str)
    ensures
        r@ == assignee_text(*issue),
{
    match &issue.assignee {
        Some(user) => match &user.display_name {
            Some(display) => display.as_str(),
            None => match &user.name {
                Some(name) => name.as_str(),
                None => "Unassigned",
            },
        },
        None => "Unassigned",
    }
}

fn clamp(n: usize, low: usize, high: usize) -> (r: usize)
    ensures
        r == clamped(n as nat, low as nat, high as nat),
{
    if n < low {
        low
    } else if n > high {
        high
    } else {
        n
    }
}

/// Fits the columns of the issue table to the issues and to a line of
/// `terminal_width` characters.
pub fn compute_issue_table_widths(issues: &[Issue], terminal_width: usize) -> (r: IssueTableWidths)
    ensures
        r == table_widths(issues@, terminal_width as nat),
        MIN_ID_WIDTH <= r.id <= MAX_ID_WIDTH,
        MIN_STATE_WIDTH <= r.state <= MAX_STATE_WIDTH,
        MIN_ASSIGNEE_WIDTH <= r.assignee <= MAX_ASSIGNEE_WIDTH,
        MIN_TITLE_WIDTH <= r.title <= MAX_TITLE_WIDTH,
{
    let mut id: usize = 0;
    let mut state: usize = 0;
    let mut assignee: usize = 0;
    let mut i: usize = 0;
    let ghost ids = |i: Issue| identifier_text(i);
    let ghost states = |i: Issue| state_name_text(i);
    let ghost assignees = |i: Issue| assignee_text(i);
    proof {
        assert(issues@.take(0).map_values(ids) == Seq::<Seq<char>>::empty());
        assert(issues@.take(0).map_values(states) == Seq::<Seq<char>>::empty());
        assert(issues@.take(0).map_values(assignees) == Seq::<Seq<char>>::empty());
    }
    while i < issues.len()
        invariant
            i <= issues.len(),
            ids == |i: Issue| identifier_text(i),
            states == |i: Issue| state_name_text(i),
            assignees == |i: Issue| assignee_text(i),
            id == longest(issues@.take(i as int).map_values(ids)),
            state == longest(issues@.take(i as int).map_values(states)),
            assignee == longest(issues@.take(i as int).map_values(assignees)),
        decreases issues.len() - i,
    {
        let issue = &issues[i];
        let id_len = identifier_of(issue).unicode_len();
        let state_len = state_name_of(issue).unicode_len();
        let assignee_len = assignee_of(issue).unicode_len();
        proof {
            let before = issues@.take(i as int);
            let after = issues@.take(i + 1);
            assert(after == before.push(issues@[i as int]));
            assert(after.map_values(ids).drop_last() == before.map_values(ids));
            assert(after.map_values(states).drop_last() == before.map_values(states));
            assert(after.map_values(assignees).drop_last() == before.map_values(assignees));
            assert(after.map_values(ids).last() == identifier_text(issues@[i as int]));
            assert(after.map_values(states).last() == state_name_text(issues@[i as int]));
            assert(after.map_values(assignees).last() == assignee_text(issues@[i as int]));
        }
        if id_len > id {
            id = id_len;
        }
        if state_len > state {
            state = state_len;
        }
        if assignee_len > assignee {
            assignee = assignee_len;
        }
        i += 1;
    }
    proof {
        assert(issues@.take(issues@.len() as int) == issues@);
    }
    let id = clamp(id, MIN_ID_WIDTH, MAX_ID_WIDTH);
    let state = clamp(state, MIN_STATE_WIDTH, MAX_STATE_WIDTH);
    let assignee = clamp(assignee, MIN_ASSIGNEE_WIDTH, MAX_ASSIGNEE_WIDTH);
    let taken = id + state + assignee + PRIORITY_WIDTH + TABLE_OVERHEAD;
    let available = if terminal_width >= taken {
        terminal_width - taken
    } else {
        0
    };
    let title = if available >= PREFERRED_TITLE_WIDTH {
        if available <= MAX_TITLE_WIDTH {
            available
        } else {
            MAX_TITLE_WIDTH
        }
    } else if available >= MIN_TITLE_WIDTH {
        available
    } else {
        MIN_TITLE_WIDTH
    };
    IssueTableWidths { id, title, state, assignee }
}

#[verifier::external_type_specification]
#[verifier::external_body]
pub struct ExBuilder(Builder);

/// The rows that a table builder holds, each a sequence of cell texts.
pub uninterp spec fn builder_rows(builder: Builder) -> Seq<Seq<Seq<char>>>;

/// The text of a table with rounded borders that shows the given rows, as
/// `tabled` lays it out.
pub uninterp spec fn rounded_table(rows: Seq<Seq<Seq<char>>>) -> Seq<char>;

/// The number of cells that a table builder currently gives each row.
pub uninterp spec fn builder_columns(builder: Builder) -> nat;

/// `Builder::new`: a builder without rows and without columns.
#[verifier::external_body]
fn builder_new() -> (builder: Builder)
    ensures
        builder_rows(builder) == Seq::<Seq<Seq<char>>>::empty(),
        builder_columns(builder) == 0,
{
    Builder::new()
}

/// `Builder::push_record`: a record that is as wide as the builder's rows,
/// or the first record of a builder if it is no narrower than the builder
/// asks, becomes the last row as it is; the other rows stay, and the
/// builder is as wide as the record. (Any other record is padded or has
/// the rows padded; nothing is claimed of that.)
#[verifier::external_body]
fn builder_push_record(builder: &mut Builder, record: Vec<String>)
    ensures
        record@.len() == builder_columns(*old(builder)) || (builder_rows(*old(builder)).len() == 0
            && record@.len() >= builder_columns(*old(builder))) ==> {
            &&& builder_rows(*final(builder)) == builder_rows(*old(builder)).push(texts(record@))
            &&& builder_columns(*final(builder)) == record@.len()
        },
{
    builder.push_record(record);
}

/// `Builder::build`, `Table::with` for `Style::rounded`, and the table's
/// `Display`: the text of the rounded table of the builder's rows.
#[verifier::external_body]
fn builder_rounded(builder: Builder) -> (r: String)
    ensures
        r@ == rounded_table(builder_rows(builder)),
{
    let mut table = builder.build();
    table.with(Style::rounded());
    table.to_string()
}

/// The headings of the issue table.
pub open spec fn issue_header() -> Seq<Seq<char>> {
    seq!["ID"@, "Title"@, "State"@, "Priority"@, "Assignee"@]
}

/// The identifier cell of an issue: the identifier cut to the column, as
/// a link to the issue where links are wanted and the issue has a URL.
pub open spec fn id_cell(issue: Issue, width: nat, hyperlinks: bool) -> Seq<char> {
    let plain = truncated(identifier_text(issue), width);
    match issue.url {
        Some(url) => if hyperlinks {
            hyperlinked(plain, url@)
        } else {
            plain
        },
        None => plain,
    }
}

/// The priority cell of an issue; an issue without a priority has `None`.
pub open spec fn priority_cell(issue: Issue) -> Seq<char> {
    match issue.priority {
        Some(p) => priority_text(p as int),
        None => priority_text(0),
    }
}

/// The name shown for an issue's state before it is styled: the name of
/// the state, cut to `width` characters where a width is given.
pub open spec fn state_name_shown(issue: Issue, width: Option<nat>) -> Seq<char> {
    match width {
        Some(w) => truncated(state_name_text(issue), w),
        None => state_name_text(issue),
    }
}

/// The text shown for an issue's state: a dash for an issue without a
/// state; else the name in the style of the state's type, the name itself
/// where that style is plain.
pub open spec fn state_shown_as(shown: Seq<char>, issue: Issue, width: Option<nat>) -> bool {
    match issue.state {
        None => shown == "\u{2014}"@,
        Some(_) => {
            &&& styled_as(shown, state_name_shown(issue, width), escape_of(style_of(state_type_text(issue))))
            &&& style_of(state_type_text(issue)) == StateStyle::Plain ==> shown == state_name_shown(
                issue,
                width,
            )
        },
    }
}

/// The row of an issue, given the text shown for its state.
pub open spec fn issue_row_of(issue: Issue, widths: IssueTableWidths, hyperlinks: bool, state: Seq<char>) -> Seq<
    Seq<char>,
> {
    seq![
        id_cell(issue, widths.id as nat, hyperlinks),
        truncated(title_text(issue), widths.title as nat),
        state,
        priority_cell(issue),
        truncated(assignee_text(issue), widths.assignee as nat),
    ]
}

/// The rows are the headings and then one row for each issue, in order,
/// each with a state text that fits its issue.
pub open spec fn issue_rows_fit(
    rows: Seq<Seq<Seq<char>>>,
    issues: Seq<Issue>,
    widths: IssueTableWidths,
    hyperlinks: bool,
) -> bool {
    &&& rows.len() == issues.len() + 1
    &&& rows[0] == issue_header()
    &&& forall|i: int|
        0 <= i < issues.len() ==> {
            &&& (#[trigger] rows[i + 1]) == issue_row_of(issues[i], widths, hyperlinks, rows[i + 1][2])
            &&& state_shown_as(rows[i + 1][2], issues[i], Some(widths.state as nat))
        }
}

/// The text shown for an issue's state in the table.
pub fn state_cell(issue: &Issue, width: usize) -> (r: String)
    ensures
        state_shown_as(r@, *issue, Some(width as nat)),
{
    match &issue.state {
        Some(_) => {
            let name = truncate_visible(state_name_of(issue), width);
            state_colored(name.as_str(), state_type_of(issue))
        },
        None => String::from_str("\u{2014}"),
    }
}

/// The row of an issue, given the text shown for its state.
pub fn issue_row(issue: &Issue, widths: &IssueTableWidths, hyperlinks: bool, state: String) -> (r: Vec<
    String,
>)
    ensures
        texts(r@) == issue_row_of(*issue, *widths, hyperlinks, state@),
{
    let id_plain = truncate_visible(identifier_of(issue), widths.id);
    let id = match &issue.url {
        Some(url) => if hyperlinks {
            hyperlink(id_plain.as_str(), url.as_str())
        } else {
            id_plain
        },
        None => id_plain,
    };
    let title = truncate_visible(title_of(issue), widths.title);
    let priority = match issue.priority {
        Some(p) => priority_label(p),
        None => priority_label(0),
    };
    let assignee = truncate_visible(assignee_of(issue), widths.assignee);
    let row = vec![id, title, state, String::from_str(priority), assignee];
    proof {
        assert(texts(row@) =~= issue_row_of(*issue, *widths, hyperlinks, state@));
    }
    row
}

fn issue_header_row() -> (r: Vec<String>)
    ensures
        texts(r@) == issue_header(),
{
    let row = vec![
        String::from_str("ID"),
        String::from_str("Title"),
        String::from_str("State"),
        String::from_str("Priority"),
        String::from_str("Assignee"),
    ];
    proof {
        assert(texts(row@) =~= issue_header());
    }
    row
}

/// The issue table as text: the rounded table of the headings and one row
/// for each issue, fitted to a line of `terminal_width` characters, or a
/// sentence where there is no issue.
pub fn issue_table(issues: &[Issue], terminal_width: usize, hyperlinks: bool) -> (r: String)
    ensures
        issues@.len() == 0 ==> r@ == "No issues found."@,
        issues@.len() > 0 ==> exists|rows: Seq<Seq<Seq<char>>>|
            r@ == rounded_table(rows) && issue_rows_fit(
                rows,
                issues@,
                table_widths(issues@, terminal_width as nat),
                hyperlinks,
            ),
{
    if issues.len() == 0 {
        return String::from_str("No issues found.");
    }
    let widths = compute_issue_table_widths(issues, terminal_width);
    let mut builder = builder_new();
    let header = issue_header_row();
    proof {
        assert(texts(header@).len() == 5);
    }
    builder_push_record(&mut builder, header);
    let mut i: usize = 0;
    while i < issues.len()
        invariant
            i <= issues.len(),
            widths == table_widths(issues@, terminal_width as nat),
            builder_columns(builder) == 5,
            issue_rows_fit(builder_rows(builder), issues@.take(i as int), widths, hyperlinks),
        decreases issues.len() - i,
    {
        let issue = &issues[i];
        let state = state_cell(issue, widths.state);
        let row = issue_row(issue, &widths, hyperlinks, state);
        let ghost before = builder_rows(builder);
        let ghost cells = texts(row@);
        proof {
            assert(cells.len() == 5);
            assert(row@.len() == cells.len());
        }
        builder_push_record(&mut builder, row);
        proof {
            let after = builder_rows(builder);
            assert(after == before.push(cells));
            assert(issues@.take(i + 1) == issues@.take(i as int).push(issues@[i as int]));
            assert forall|j: int| 0 <= j < i + 1 implies {
                &&& (#[trigger] after[j + 1]) == issue_row_of(
                    issues@.take(i + 1)[j],
                    widths,
                    hyperlinks,
                    after[j + 1][2],
                )
                &&& state_shown_as(after[j + 1][2], issues@.take(i + 1)[j], Some(widths.state as nat))
            } by {
                if j < i {
                    assert(after[j + 1] == before[j + 1]);
                    assert(issues@.take(i + 1)[j] == issues@.take(i as int)[j]);
                }
            }
        }
        i += 1;
    }
    proof {
        assert(issues@.take(issues@.len() as int) == issues@);
    }
    builder_rounded(builder)
}

/// The headings of the team table.
pub open spec fn team_header() -> Seq<Seq<char>> {
    seq!["Key"@, "Name"@]
}

/// The row of a team: its key and its name, a dash for each that is absent.
pub open spec fn team_row_of(team: Team) -> Seq<Seq<char>> {
    seq![text_or(team.key, "\u{2014}"@), text_or(team.name, "\u{2014}"@)]
}

/// The rows of the team table: the headings, then the teams in order.
pub open spec fn team_rows(teams: Seq<Team>) -> Seq<Seq<Seq<char>>> {
    seq![team_header()] + teams.map_values(|t: Team| team_row_of(t))
}

/// The team table as text, or a sentence where there is no team.
pub fn team_table(teams: &[Team]) -> (r: String)
    ensures
        r@ == if teams@.len() == 0 {
            "No teams found."@
        } else {
            rounded_table(team_rows(teams@))
        },
{
    if teams.len() == 0 {
        return String::from_str("No teams found.");
    }
    let mut builder = builder_new();
    let header = vec![String::from_str("Key"), String::from_str("Name")];
    proof {
        assert(texts(header@) =~= team_header());
        assert(header@.len() == 2);
    }
    builder_push_record(&mut builder, header);
    let mut i: usize = 0;
    proof {
        assert(builder_rows(builder) =~= team_rows(teams@.take(0)));
    }
    while i < teams.len()
        invariant
            i <= teams.len(),
            builder_columns(builder) == 2,
            builder_rows(builder) == team_rows(teams@.take(i as int)),
        decreases teams.len() - i,
    {
        let team = &teams[i];
        let key = match &team.key {
            Some(text) => text.clone(),
            None => String::from_str("\u{2014}"),
        };
        let name = match &team.name {
            Some(text) => text.clone(),
            None => String::from_str("\u{2014}"),
        };
        let row = vec![key, name];
        proof {
            assert(texts(row@) =~= team_row_of(*team));
            assert(row@.len() == 2);
            assert(teams@.take(i + 1) == teams@.take(i as int).push(teams@[i as int]));
            assert(team_rows(teams@.take(i + 1)) =~= team_rows(teams@.take(i as int)).push(
                team_row_of(teams@[i as int]),
            ));
        }
        builder_push_record(&mut builder, row);
        i += 1;
    }
    proof {
        assert(teams@.take(teams@.len() as int) == teams@);
    }
    builder_rounded(builder)
}

/// The names of the labels that have one, in order.
pub open spec fn present_names(labels: Seq<Label>) -> Seq<Seq<char>>
    decreases labels.len(),
{
    if labels.len() == 0 {
        Seq::empty()
    } else {
        match labels.last().name {
            Some(name) => present_names(labels.drop_last()).push(name@),
            None => present_names(labels.drop_last()),
        }
    }
}

/// The names of an issue's labels, separated by commas; empty for an issue
/// without labels.
pub open spec fn labels_text(issue: Issue) -> Seq<char> {
    match issue.labels {
        Some(labels) => join(present_names(labels.nodes@), ", "@),
        None => Seq::empty(),
    }
}

/// The name of an issue's team, or a dash.
pub open spec fn team_text(issue: Issue) -> Seq<char> {
    match issue.team {
        Some(team) => text_or(team.name, "\u{2014}"@),
        None => "\u{2014}"@,
    }
}

/// The name of an issue's project, or a dash.
pub open spec fn project_text(issue: Issue) -> Seq<char> {
    match issue.project {
        Some(project) => text_or(project.name, "\u{2014}"@),
        None => "\u{2014}"@,
    }
}

/// The heading of an issue's detail view, before it is emphasised.
pub open spec fn heading_text(issue: Issue) -> Seq<char> {
    identifier_text(issue) + "  "@ + title_text(issue)
}

/// The description of an issue where it has a non-empty one.
pub open spec fn description_text(issue: Issue) -> Option<Seq<char>> {
    match issue.description {
        Some(text) => if text@.len() > 0 {
            Some(text@)
        } else {
            None
        },
        None => None,
    }
}

/// The lines of an issue's detail view, given the three texts that the
/// terminal library styles: the heading, the state and the title of the
/// description. The labels have a line only where their text is not
/// empty, the description a section only where it is not empty.
pub open spec fn detail_of(issue: Issue, heading: Seq<char>, state: Seq<char>, section: Seq<char>) -> Seq<
    Seq<char>,
> {
    let top = seq![
        heading,
        ""@,
        "State:    "@ + state,
        "Priority: "@ + priority_cell(issue),
        "Team:     "@ + team_text(issue),
        "Assignee: "@ + assignee_text(issue),
    ];
    let labels = if labels_text(issue).len() > 0 {
        seq!["Labels:   "@ + labels_text(issue)]
    } else {
        Seq::empty()
    };
    let bottom = seq![
        "Project:  "@ + project_text(issue),
        "URL:      "@ + text_or(issue.url, "\u{2014}"@),
    ];
    let description = match description_text(issue) {
        Some(text) => seq![""@, section, text],
        None => Seq::empty(),
    };
    top + labels + bottom + description
}

fn labels_of(issue: &Issue) -> (r: String)
    ensures
        r@ == labels_text(*issue),
{
    match &issue.labels {
        Some(labels) => {
            let mut names: Vec<String> = Vec::new();
            let mut i: usize = 0;
            proof {
                assert(texts(names@) =~= present_names(labels.nodes@.take(0)));
            }
            while i < labels.nodes.len()
                invariant
                    i <= labels.nodes.len(),
                    texts(names@) == present_names(labels.nodes@.take(i as int)),
                decreases labels.nodes.len() - i,
            {
                proof {
                    let after = labels.nodes@.take(i + 1);
                    assert(after.drop_last() == labels.nodes@.take(i as int));
                    assert(after.last() == labels.nodes@[i as int]);
                }
                match &labels.nodes[i].name {
                    Some(name) => {
                        let owned = name.clone();
                        proof {
                            assert(texts(names@.push(owned)) =~= texts(names@).push(owned@));
                        }
                        names.push(owned);
                    },
                    None => {},
                }
                i += 1;
            }
            proof {
                assert(labels.nodes@.take(labels.nodes@.len() as int) == labels.nodes@);
            }
            join_strings(&names, ", ")
        },
        None => String::new(),
    }
}

fn labelled(label: &str, value: &str) -> (r: String)
    ensures
        r@ == label@ + value@,
{
    let mut out = String::from_str(label);
    out.append(value);
    out
}

/// The lines of an issue's detail view, given the styled texts.
pub fn detail_lines(issue: &Issue, heading: String, state: &str, section: String) -> (lines: Vec<String>)
    ensures
        texts(lines@) == detail_of(*issue, heading@, state@, section@),
{
    let ghost heading_chars = heading@;
    let ghost section_chars = section@;
    let priority = match issue.priority {
        Some(p) => priority_label(p),
        None => priority_label(0),
    };
    let team = match &issue.team {
        Some(team) => match &team.name {
            Some(name) => name.as_str(),
            None => "\u{2014}",
        },
        None => "\u{2014}",
    };
    let project = match &issue.project {
        Some(project) => match &project.name {
            Some(name) => name.as_str(),
            None => "\u{2014}",
        },
        None => "\u{2014}",
    };
    let url = match &issue.url {
        Some(url) => url.as_str(),
        None => "\u{2014}",
    };
    let mut lines: Vec<String> = vec![
        heading,
        String::from_str(""),
        labelled("State:    ", state),
        labelled("Priority: ", priority),
        labelled("Team:     ", team),
        labelled("Assignee: ", assignee_of(issue)),
    ];
    let labels = labels_of(issue);
    if !labels.as_str().is_empty() {
        lines.push(labelled("Labels:   ", labels.as_str()));
    }
    lines.push(labelled("Project:  ", project));
    lines.push(labelled("URL:      ", url));
    match &issue.description {
        Some(text) => {
            if !text.as_str().is_empty() {
                lines.push(String::from_str(""));
                lines.push(section);
                lines.push(text.clone());
            }
        },
        None => {},
    }
    proof {
        assert(texts(lines@) =~= detail_of(*issue, heading_chars, state@, section_chars));
    }
    lines
}

/// The lines of an issue's detail view. The heading and the title of the
/// description are emphasised and the state is styled by its type; each of
/// the three comes out with its escape sequences or without.
pub fn issue_detail(issue: &Issue) -> (lines: Vec<String>)
    ensures
        exists|heading: Seq<char>, state: Seq<char>, section: Seq<char>|
            {
                &&& texts(lines@) == detail_of(*issue, heading, state, section)
                &&& styled_as(heading, heading_text(*issue), "\x1b[1m"@)
                &&& state_shown_as(state, *issue, None)
                &&& styled_as(section, "Description"@, "\x1b[1m"@)
            },
{
    let mut plain = String::from_str(identifier_of(issue));
    plain.append("  ");
    plain.append(title_of(issue));
    let heading = emphasised(plain.as_str());
    let state = match &issue.state {
        Some(_) => state_colored(state_name_of(issue), state_type_of(issue)),
        None => String::from_str("\u{2014}"),
    };
    let section = emphasised("Description");
    let ghost heading_chars = heading@;
    let ghost section_chars = section@;
    let lines = detail_lines(issue, heading, state.as_str(), section);
    proof {
        assert(texts(lines@) == detail_of(*issue, heading_chars, state@, section_chars));
        assert(styled_as(heading_chars, heading_text(*issue), "\x1b[1m"@));
        assert(state_shown_as(state@, *issue, None));
        assert(styled_as(section_chars, "Description"@, "\x1b[1m"@));
    }
    lines
}

} // verus!
