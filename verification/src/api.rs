//! The two operations of the tracker's worklog interface: what is sent for
//! each, and what each answer means.
//!
//! Nothing here touches the network. A `Request` says what to send, an
//! `Outcome` says what came of sending it, and the functions between them
//! are total.

use crate::date::{CalendarDate, Instant, Timestamp};
use vstd::prelude::*;
use vstd::string::StringExecFns;

verus! {

/// Why an operation failed, with texts as sequences of characters.
pub enum Failure {
    InvalidBaseUrl { base_url: Seq<char> },
    Unauthorized,
    NotFound { kind: Seq<char>, name: Seq<char> },
    SerializationError,
    UnknownError,
}

impl Failure {
    /// The line shown to the user.
    pub open spec fn message(self) -> Seq<char> {
        match self {
            Failure::InvalidBaseUrl { base_url } => "A invalid base url was used `"@ + base_url
                + "`"@,
            Failure::Unauthorized => "This user is not authorized for this action"@,
            Failure::NotFound { kind, name } => "The "@ + kind + " `"@ + name
                + "` was not found, or the user was unauthorized"@,
            Failure::SerializationError => "Failed to serialize the response"@,
            Failure::UnknownError => "A unknown api error occured"@,
        }
    }
}

/// Why an operation failed.
#[derive(Debug)]
pub enum ApiError {
    /// No request could be built for the configured domain.
    InvalidBaseUrl { base_url: String },
    /// The tracker answered 401 or 403.
    Unauthorized,
    /// The tracker answered 404.
    NotFound { kind: String, name: String },
    /// The answer's body was not a page of worklogs.
    SerializationError,
    /// Any other failure of the transport or status.
    UnknownError,
}

impl View for ApiError {
    type V = Failure;

    open spec fn view(&self) -> Failure {
        match self {
            ApiError::InvalidBaseUrl { base_url } => Failure::InvalidBaseUrl {
                base_url: base_url@,
            },
            ApiError::Unauthorized => Failure::Unauthorized,
            ApiError::NotFound { kind, name } => Failure::NotFound { kind: kind@, name: name@ },
            ApiError::SerializationError => Failure::SerializationError,
            ApiError::UnknownError => Failure::UnknownError,
        }
    }
}

impl ApiError {
    /// The line shown to the user.
    pub fn message(&self) -> (line: String)
        ensures
            line@ == self@.message(),
    {
        match self {
            ApiError::InvalidBaseUrl { base_url } => {
                let mut line = String::from_str("A invalid base url was used `");
                line.append(base_url.as_str());
                line.append("`");
                line
            },
            ApiError::Unauthorized => String::from_str(
                "This user is not authorized for this action",
            ),
            ApiError::NotFound { kind, name } => {
                let mut line = String::from_str("The ");
                line.append(kind.as_str());
                line.append(" `");
                line.append(name.as_str());
                line.append("` was not found, or the user was unauthorized");
                line
            },
            ApiError::SerializationError => String::from_str("Failed to serialize the response"),
            ApiError::UnknownError => String::from_str("A unknown api error occured"),
        }
    }
}

/// The credentials of a user of the tracker.
#[derive(Debug)]
pub enum Authorization {
    /// A user name with an API token as its password.
    ApiToken { username: String, api_token: String },
    /// A bearer token.
    AccessToken { access_token: String },
}

/// The body of the request that creates a worklog, with texts as sequences of
/// characters.
pub struct WorklogAddBodyView {
    pub comment: Option<Seq<char>>,
    pub time_spent: Seq<char>,
    pub started: Seq<char>,
}

/// The body of the request that creates a worklog.
#[derive(Debug)]
pub struct WorklogAddBody {
    pub comment: Option<String>,
    pub time_spent: String,
    pub started: String,
}

/// The view of a text that may be absent.
pub open spec fn optional_text(text: Option<String>) -> Option<Seq<char>> {
    match text {
        Some(t) => Some(t@),
        None => None,
    }
}

impl View for WorklogAddBody {
    type V = WorklogAddBodyView;

    open spec fn view(&self) -> WorklogAddBodyView {
        WorklogAddBodyView {
            comment: optional_text(self.comment),
            time_spent: self.time_spent@,
            started: self.started@,
        }
    }
}

/// What is known of a worklog before it is created.
#[derive(Debug, Clone)]
pub struct CreateWorklogDto {
    pub issue: String,
    pub comment: Option<String>,
    pub time_spent: String,
    pub started: CalendarDate,
}

impl CreateWorklogDto {
    /// The worklog to create on `issue`, started on the given day.
    pub fn new(issue: String, comment: Option<String>, time_spent: String, started: CalendarDate) -> (dto:
        CreateWorklogDto)
        ensures
            dto.issue == issue,
            dto.comment == comment,
            dto.time_spent == time_spent,
            dto.started == started,
    {
        CreateWorklogDto { issue, comment, time_spent, started }
    }

    /// The issue that the worklog belongs to.
    pub fn issue(&self) -> (issue: &str)
        ensures
            issue@ == self.issue@,
    {
        self.issue.as_str()
    }

    /// The body that creates this worklog.
    pub open spec fn wire_body(self) -> WorklogAddBodyView {
        WorklogAddBodyView {
            comment: optional_text(self.comment),
            time_spent: self.time_spent@,
            started: self.started@.noon().wire_text(),
        }
    }
}

impl WorklogAddBody {
    /// The body that creates the worklog: comment and duration as they were
    /// given, an absent comment staying absent, and as its start the noon of
    /// its day in UTC.
    pub fn from(dto: CreateWorklogDto) -> (body: WorklogAddBody)
        ensures
            body@ == dto.wire_body(),
            body.comment == dto.comment,
            body.time_spent == dto.time_spent,
    {
        let started = dto.started.and_hms(12, 0, 0).wire_value();
        WorklogAddBody { comment: dto.comment, time_spent: dto.time_spent, started }
    }
}

/// The issue and the window of time of a search for worklogs.
#[derive(Debug)]
pub struct ViewWorklogDto {
    pub issue: String,
    pub from: Option<Timestamp>,
    pub until: Option<Timestamp>,
}

/// The view of an instant that may be absent.
pub open spec fn optional_instant(at: Option<Timestamp>) -> Option<Instant> {
    match at {
        Some(t) => Some(t@),
        None => None,
    }
}

impl ViewWorklogDto {
    /// The search for the worklogs of `issue` within the given bounds.
    pub fn new(issue: String, from: Option<Timestamp>, until: Option<Timestamp>) -> (dto:
        ViewWorklogDto)
        ensures
            dto.issue == issue,
            dto.from == from,
            dto.until == until,
    {
        ViewWorklogDto { issue, from, until }
    }

    /// The issue whose worklogs are searched.
    pub fn issue(&self) -> (issue: &str)
        ensures
            issue@ == self.issue@,
    {
        self.issue.as_str()
    }

    /// The first instant of the window, if it has one.
    pub fn from(&self) -> (from: Option<Timestamp>)
        ensures
            from == self.from,
    {
        self.from
    }

    /// The last instant of the window, if it has one.
    pub fn until(&self) -> (until: Option<Timestamp>)
        ensures
            until == self.until,
    {
        self.until
    }

    /// The query parameters of the search: the bounds that are present, the
    /// lower one first.
    pub open spec fn query(self) -> Seq<(Seq<char>, Seq<char>)> {
        let after = match self.from {
            Some(at) => seq![("startedAfter"@, at@.query_text())],
            None => seq![],
        };
        let before = match self.until {
            Some(at) => seq![("startedBefore"@, at@.query_text())],
            None => seq![],
        };
        after + before
    }
}

/// The author of a worklog.
#[derive(Debug, Clone)]
pub struct AuthorResponse {
    pub display_name: String,
}

impl AuthorResponse {
    /// The author shown under this name.
    pub fn new(display_name: String) -> (author: AuthorResponse)
        ensures
            author.display_name == display_name,
    {
        AuthorResponse { display_name }
    }

    /// The name under which the tracker shows the author.
    pub fn display_name(&self) -> (name: &str)
        ensures
            name@ == self.display_name@,
    {
        self.display_name.as_str()
    }
}

/// A worklog as the tracker returns it.
#[derive(Debug, Clone)]
pub struct WorklogResponse {
    pub author: AuthorResponse,
    pub comment: Option<String>,
    pub time_spent: String,
}

impl WorklogResponse {
    /// The worklog with these parts.
    pub fn new(author: AuthorResponse, comment: Option<String>, time_spent: String) -> (log:
        WorklogResponse)
        ensures
            log.author == author,
            log.comment == comment,
            log.time_spent == time_spent,
    {
        WorklogResponse { author, comment, time_spent }
    }

    /// The time spent, as the tracker wrote it.
    pub fn time_spent(&self) -> (time: &str)
        ensures
            time@ == self.time_spent@,
    {
        self.time_spent.as_str()
    }

    /// Who did the work.
    pub fn author(&self) -> (author: &AuthorResponse)
        ensures
            *author == self.author,
    {
        &self.author
    }

    /// The comment, if the worklog has one.
    pub fn comment(&self) -> (comment: Option<&String>)
        ensures
            comment == match self.comment {
                Some(c) => Some(&c),
                None => None,
            },
    {
        self.comment.as_ref()
    }
}

/// One page of the worklogs of an issue.
#[derive(Debug)]
pub struct PagedWorklogResponse {
    pub worklogs: Vec<WorklogResponse>,
}

impl PagedWorklogResponse {
    /// The page of these worklogs.
    pub fn new(worklogs: Vec<WorklogResponse>) -> (page: PagedWorklogResponse)
        ensures
            page.worklogs == worklogs,
    {
        PagedWorklogResponse { worklogs }
    }

    /// The worklogs of the page, in the tracker's order.
    pub fn worklogs(&self) -> (logs: &[WorklogResponse])
        ensures
            logs@ == self.worklogs@,
    {
        self.worklogs.as_slice()
    }
}

} // verus!
