//! The two commands: what each asks of the client and what it shows.

use crate::api::{
    optional_instant, ApiError, CreateWorklogDto, PagedWorklogResponse, ViewWorklogDto,
    WorklogResponse,
};
use crate::client::{list_failure, Outcome, WorklogApi};
use crate::date::CalendarDate;
use vstd::prelude::*;
use vstd::std_specs::convert::FromSpecImpl;
use vstd::string::StringExecFns;

verus! {

/// What the user asks to see: the worklogs of an issue on one day.
#[derive(Debug, Clone)]
pub struct ViewContext {
    pub date: CalendarDate,
    pub issue: String,
}

impl ViewContext {
    /// The request to see the worklogs of `issue` on `date`.
    pub fn new(date: CalendarDate, issue: String) -> (context: ViewContext)
        ensures
            context.date == date,
            context.issue == issue,
    {
        ViewContext { date, issue }
    }
}

impl From<ViewContext> for ViewWorklogDto {
    /// The search for the worklogs of the issue from the first to the last
    /// second of the day.
    fn from(context: ViewContext) -> (dto: ViewWorklogDto) {
        ViewWorklogDto::new(
            context.issue,
            Some(context.date.and_hms(0, 0, 0)),
            Some(context.date.and_hms(23, 59, 59)),
        )
    }
}

impl FromSpecImpl<ViewContext> for ViewWorklogDto {
    open spec fn obeys_from_spec() -> bool {
        true
    }

    open spec fn from_spec(context: ViewContext) -> ViewWorklogDto {
        day_window(context)
    }
}

/// The search for the worklogs of the issue from the first to the last second
/// of the day.
pub open spec fn day_window(context: ViewContext) -> ViewWorklogDto {
    ViewWorklogDto {
        issue: context.issue,
        from: Some(context.date.at(0, 0, 0)),
        until: Some(context.date.at(23, 59, 59)),
    }
}

/// The window of a day: it opens with the day's first second and closes
/// 86399 seconds later, and the two bounds go out as the query parameters
/// `startedAfter` and `startedBefore`, each the seconds since 1970 followed
/// by `000`.
pub proof fn lemma_view_window(context: ViewContext)
    requires
        context.date@.valid(),
    ensures
        day_window(context).issue == context.issue,
        optional_instant(day_window(context).from) == Some(
            context.date@.start_of_day(),
        ),
        optional_instant(day_window(context).until) == Some(
            context.date@.end_of_day(),
        ),
        context.date@.end_of_day().epoch_seconds() == context.date@.start_of_day().epoch_seconds()
            + 86399,
        day_window(context).query() == seq![
            ("startedAfter"@, context.date@.start_of_day().query_text()),
            ("startedBefore"@, context.date@.end_of_day().query_text()),
        ],
{
    context.date.lemma_at(0, 0, 0);
    context.date.lemma_at(23, 59, 59);
    assert(day_window(context).query() =~= seq![
        ("startedAfter"@, context.date@.start_of_day().query_text()),
        ("startedBefore"@, context.date@.end_of_day().query_text()),
    ]);
}

/// What the user asks to record: time spent on an issue on one day.
#[derive(Debug)]
pub struct AddContext {
    pub date: CalendarDate,
    pub issue: String,
    pub comment: Option<String>,
    pub time_spend: String,
}

impl AddContext {
    /// The request to record time spent on `issue` on `date`.
    pub fn new(date: CalendarDate, issue: String, comment: Option<String>, time_spend: String) -> (context:
        AddContext)
        ensures
            context.date == date,
            context.issue == issue,
            context.comment == comment,
            context.time_spend == time_spend,
    {
        AddContext { date, issue, comment, time_spend }
    }
}

impl From<AddContext> for CreateWorklogDto {
    /// The worklog to create, with every part as the user gave it.
    fn from(context: AddContext) -> (dto: CreateWorklogDto) {
        CreateWorklogDto::new(context.issue, context.comment, context.time_spend, context.date)
    }
}

impl FromSpecImpl<AddContext> for CreateWorklogDto {
    open spec fn obeys_from_spec() -> bool {
        true
    }

    open spec fn from_spec(context: AddContext) -> CreateWorklogDto {
        CreateWorklogDto {
            issue: context.issue,
            comment: context.comment,
            time_spent: context.time_spend,
            started: context.date,
        }
    }
}

/// The line that shows a worklog of `issue`.
pub open spec fn worklog_line(issue: Seq<char>, log: WorklogResponse) -> Seq<char> {
    "> "@ + issue + " <"@ + log.author.display_name@ + "> `"@ + log.time_spent@ + "` "@
        + match log.comment {
        Some(comment) => comment@,
        None => "`no comment`"@,
    }
}

/// Renders a worklog of `issue`: the issue, the author between angle
/// brackets, the time spent between backticks, and the comment or a note that
/// there is none.
pub fn render_line(issue: &str, log: &WorklogResponse) -> (line: String)
    ensures
        line@ == worklog_line(issue@, *log),
{
    let mut line = String::from_str("> ");
    line.append(issue);
    line.append(" <");
    line.append(log.author().display_name());
    line.append("> `");
    line.append(log.time_spent());
    line.append("` ");
    match log.comment() {
        Some(comment) => line.append(comment.as_str()),
        None => line.append("`no comment`"),
    }
    line
}

/// Renders the worklogs of `issue`, one line each, in the order given.
pub fn render_lines(issue: &str, logs: &Vec<WorklogResponse>) -> (lines: Vec<String>)
    ensures
        lines.len() == logs.len(),
        forall|i: int| 0 <= i < logs.len() ==> (#[trigger] lines[i])@ == worklog_line(issue@, logs[i]),
{
    let mut lines: Vec<String> = Vec::new();
    let mut i: usize = 0;
    while i < logs.len()
        invariant
            i <= logs.len(),
            lines.len() == i,
            forall|j: int| 0 <= j < i ==> (#[trigger] lines[j])@ == worklog_line(issue@, logs[j]),
        decreases logs.len() - i,
    {
        lines.push(render_line(issue, &logs[i]));
        i += 1;
    }
    lines
}

/// What the view command prints once the tracker has answered: one line for
/// each worklog of the page, in the tracker's order, or the failure of the
/// listing.
pub fn view_worklog(
    api: &WorklogApi,
    dto: &ViewWorklogDto,
    outcome: Outcome,
    page: Option<PagedWorklogResponse>,
) -> (shown: Result<Vec<String>, ApiError>)
    ensures
        match list_failure(api.domain@, dto.issue@, outcome, page is Some) {
            Some(failure) => shown matches Err(e) && e@ == failure,
            None => shown matches Ok(lines) && page matches Some(p) && lines.len()
                == p.worklogs.len() && forall|i: int|
                0 <= i < p.worklogs.len() ==> (#[trigger] lines[i])@ == worklog_line(
                    dto.issue@,
                    p.worklogs[i],
                ),
        },
{
    match api.worklogs(dto, outcome, page) {
        Ok(logs) => Ok(render_lines(dto.issue(), &logs)),
        Err(error) => Err(error),
    }
}

} // verus!
