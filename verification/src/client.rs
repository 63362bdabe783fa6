//! The client of one tracker: the requests it sends and the meaning of what
//! comes back.

use crate::api::{
    ApiError, Authorization, CreateWorklogDto, Failure, PagedWorklogResponse, ViewWorklogDto,
    WorklogAddBody, WorklogAddBodyView, WorklogResponse,
};
use vstd::prelude::*;
use vstd::string::StringExecFns;

verus! {

/// The method of a request.
#[derive(Clone, Copy, Debug, PartialEq, Eq)]
pub enum Method {
    Get,
    Post,
}

/// A request, with texts as sequences of characters.
pub struct RequestView {
    pub method: Method,
    pub url: Seq<char>,
    pub query: Seq<(Seq<char>, Seq<char>)>,
    pub headers: Seq<(Seq<char>, Seq<char>)>,
    pub basic_auth: Option<(Seq<char>, Seq<char>)>,
    pub body: Option<WorklogAddBodyView>,
}

impl RequestView {
    /// The request with the credentials attached: a user name and its token as
    /// HTTP Basic credentials, or a bearer token as one more header.
    pub open spec fn authorized(self, authorization: Authorization) -> RequestView {
        match authorization {
            Authorization::ApiToken { username, api_token } => RequestView {
                basic_auth: Some((username@, api_token@)),
                ..self
            },
            Authorization::AccessToken { access_token } => RequestView {
                headers: self.headers.push(("Authorization"@, "Bearer "@ + access_token@)),
                ..self
            },
        }
    }
}

/// Everything that is sent for one operation.
#[derive(Debug)]
pub struct Request {
    pub method: Method,
    pub url: String,
    /// The query parameters, each a name and a value.
    pub query: Vec<(String, String)>,
    /// The headers, each a name and a value, in the order they were set.
    pub headers: Vec<(String, String)>,
    /// The user name and password of HTTP Basic authentication.
    pub basic_auth: Option<(String, String)>,
    /// The body, sent as JSON.
    pub body: Option<WorklogAddBody>,
}

/// The views of a list of names and values.
pub open spec fn pairs_view(pairs: Seq<(String, String)>) -> Seq<(Seq<char>, Seq<char>)> {
    Seq::new(pairs.len(), |i: int| (pairs[i].0@, pairs[i].1@))
}

impl View for Request {
    type V = RequestView;

    open spec fn view(&self) -> RequestView {
        RequestView {
            method: self.method,
            url: self.url@,
            query: pairs_view(self.query@),
            headers: pairs_view(self.headers@),
            basic_auth: match self.basic_auth {
                Some((user, password)) => Some((user@, password@)),
                None => None,
            },
            body: match self.body {
                Some(body) => Some(body@),
                None => None,
            },
        }
    }
}

impl Request {
    /// Attaches the credentials and leaves the rest of the request as it was.
    pub fn authorize(self, authorization: &Authorization) -> (request: Request)
        ensures
            request@ == self@.authorized(*authorization),
    {
        let Request { method, url, query, headers, basic_auth, body } = self;
        match authorization {
            Authorization::ApiToken { username, api_token } => {
                Request {
                    method,
                    url,
                    query,
                    headers,
                    basic_auth: Some((username.clone(), api_token.clone())),
                    body,
                }
            },
            Authorization::AccessToken { access_token } => {
                let mut value = String::from_str("Bearer ");
                value.append(access_token.as_str());
                let mut headers = headers;
                let ghost before = headers@;
                headers.push((String::from_str("Authorization"), value));
                assert(pairs_view(headers@) =~= pairs_view(before).push(
                    ("Authorization"@, "Bearer "@ + access_token@),
                ));
                Request { method, url, query, headers, basic_auth, body }
            },
        }
    }
}

/// The address of the worklogs of an issue.
pub open spec fn worklog_url(domain: Seq<char>, issue: Seq<char>) -> Seq<char> {
    domain + "/rest/api/2/issue/"@ + issue + "/worklog"@
}

/// The request that lists the worklogs of an issue.
pub open spec fn list_request(
    domain: Seq<char>,
    context: ViewWorklogDto,
    authorization: Authorization,
) -> RequestView {
    (RequestView {
        method: Method::Get,
        url: worklog_url(domain, context.issue@),
        query: context.query(),
        headers: seq![],
        basic_auth: None,
        body: None,
    }).authorized(authorization)
}

/// The request that creates a worklog.
pub open spec fn create_request(
    domain: Seq<char>,
    dto: CreateWorklogDto,
    authorization: Authorization,
) -> RequestView {
    (RequestView {
        method: Method::Post,
        url: worklog_url(domain, dto.issue@),
        query: seq![],
        headers: seq![("Content-Type"@, "application/json"@)],
        basic_auth: None,
        body: Some(dto.wire_body()),
    }).authorized(authorization)
}

/// What came of sending a request.
#[derive(Clone, Copy, Debug, PartialEq, Eq)]
pub enum Outcome {
    /// No request could be built.
    BuilderError,
    /// The request was built and no answer came.
    TransportError,
    /// The tracker answered with this status code.
    Status(u16),
}

/// Whether a status code reports success.
pub open spec fn is_success(code: u16) -> bool {
    200 <= code < 300
}

/// The failure that a status code reports for an operation on `issue`, if it
/// reports one.
pub open spec fn status_failure(code: u16, issue: Seq<char>) -> Option<Failure> {
    if is_success(code) {
        None
    } else if code == 404 {
        Some(Failure::NotFound { kind: "issue"@, name: issue })
    } else if code == 401 || code == 403 {
        Some(Failure::Unauthorized)
    } else {
        Some(Failure::UnknownError)
    }
}

/// The failure of a listing, if it failed. `parsed` says whether the body of
/// the answer was a page of worklogs; it counts only after a success status.
pub open spec fn list_failure(
    domain: Seq<char>,
    issue: Seq<char>,
    outcome: Outcome,
    parsed: bool,
) -> Option<Failure> {
    match outcome {
        Outcome::BuilderError => Some(Failure::InvalidBaseUrl { base_url: domain }),
        Outcome::TransportError => Some(Failure::UnknownError),
        Outcome::Status(code) => match status_failure(code, issue) {
            Some(failure) => Some(failure),
            None => if parsed {
                None
            } else {
                Some(Failure::SerializationError)
            },
        },
    }
}

/// The failure of a creation, if it failed. A request that could not be built
/// counts as any other failure to send.
pub open spec fn create_failure(issue: Seq<char>, outcome: Outcome) -> Option<Failure> {
    match outcome {
        Outcome::BuilderError => Some(Failure::UnknownError),
        Outcome::TransportError => Some(Failure::UnknownError),
        Outcome::Status(code) => status_failure(code, issue),
    }
}

/// Whether a status code reports success.
pub fn status_is_success(code: u16) -> (success: bool)
    ensures
        success == is_success(code),
{
    200 <= code && code < 300
}

/// Classifies the status of an answer to an operation on `issue`.
pub fn check_status(code: u16, issue: &str) -> (checked: Result<(), ApiError>)
    ensures
        match status_failure(code, issue@) {
            Some(failure) => checked matches Err(e) && e@ == failure,
            None => checked is Ok,
        },
{
    if status_is_success(code) {
        Ok(())
    } else if code == 404 {
        Err(ApiError::NotFound { kind: String::from_str("issue"), name: String::from_str(issue) })
    } else if code == 401 || code == 403 {
        Err(ApiError::Unauthorized)
    } else {
        Err(ApiError::UnknownError)
    }
}

/// The client of the tracker at one domain.
#[derive(Debug)]
pub struct WorklogApi {
    pub domain: String,
}

impl WorklogApi {
    /// The client of the tracker at `domain`.
    pub fn new(domain: String) -> (api: WorklogApi)
        ensures
            api.domain == domain,
    {
        WorklogApi { domain }
    }

    /// The address of the worklogs of an issue.
    pub fn worklog_url(&self, issue: &str) -> (url: String)
        ensures
            url@ == worklog_url(self.domain@, issue@),
    {
        let mut url = self.domain.clone();
        url.append("/rest/api/2/issue/");
        url.append(issue);
        url.append("/worklog");
        url
    }

    /// The request that lists the worklogs of the issue within the window.
    pub fn list_request(&self, context: &ViewWorklogDto, authorization: &Authorization) -> (request:
        Request)
        ensures
            request@ == list_request(self.domain@, *context, *authorization),
    {
        let mut query: Vec<(String, String)> = Vec::new();
        if let Some(from) = context.from() {
            query.push((String::from_str("startedAfter"), from.query_value()));
        }
        if let Some(until) = context.until() {
            query.push((String::from_str("startedBefore"), until.query_value()));
        }
        assert(pairs_view(query@) =~= context.query());
        let headers: Vec<(String, String)> = Vec::new();
        assert(pairs_view(headers@) =~= seq![]);
        let request = Request {
            method: Method::Get,
            url: self.worklog_url(context.issue()),
            query,
            headers,
            basic_auth: None,
            body: None,
        };
        request.authorize(authorization)
    }

    /// The request that creates the worklog.
    pub fn create_request(&self, dto: CreateWorklogDto, authorization: &Authorization) -> (request:
        Request)
        ensures
            request@ == create_request(self.domain@, dto, *authorization),
    {
        let url = self.worklog_url(dto.issue());
        let query: Vec<(String, String)> = Vec::new();
        assert(pairs_view(query@) =~= seq![]);
        let mut headers: Vec<(String, String)> = Vec::new();
        headers.push((String::from_str("Content-Type"), String::from_str("application/json")));
        assert(pairs_view(headers@) =~= seq![("Content-Type"@, "application/json"@)]);
        let body = WorklogAddBody::from(dto);
        let request = Request {
            method: Method::Post,
            url,
            query,
            headers,
            basic_auth: None,
            body: Some(body),
        };
        request.authorize(authorization)
    }

    /// The result of a listing: the worklogs of the page in the tracker's
    /// order, or the first failure. `page` is the body of the answer if it was
    /// a page of worklogs; it is read only after a success status.
    pub fn worklogs(
        &self,
        context: &ViewWorklogDto,
        outcome: Outcome,
        page: Option<PagedWorklogResponse>,
    ) -> (listed: Result<Vec<WorklogResponse>, ApiError>)
        ensures
            match list_failure(self.domain@, context.issue@, outcome, page is Some) {
                Some(failure) => listed matches Err(e) && e@ == failure,
                None => listed matches Ok(logs) && page matches Some(p) && logs == p.worklogs,
            },
    {
        match outcome {
            Outcome::BuilderError => Err(ApiError::InvalidBaseUrl { base_url: self.domain.clone() }),
            Outcome::TransportError => Err(ApiError::UnknownError),
            Outcome::Status(code) => match check_status(code, context.issue()) {
                Err(error) => Err(error),
                Ok(()) => match page {
                    Some(p) => Ok(p.worklogs),
                    None => Err(ApiError::SerializationError),
                },
            },
        }
    }

    /// The result of a creation: success after a success status, whatever the
    /// body of the answer, or the failure.
    pub fn create_worklog(&self, dto: &CreateWorklogDto, outcome: Outcome) -> (created: Result<
        (),
        ApiError,
    >)
        ensures
            match create_failure(dto.issue@, outcome) {
                Some(failure) => created matches Err(e) && e@ == failure,
                None => created is Ok,
            },
    {
        match outcome {
            Outcome::BuilderError => Err(ApiError::UnknownError),
            Outcome::TransportError => Err(ApiError::UnknownError),
            Outcome::Status(code) => check_status(code, dto.issue()),
        }
    }
}

/// Credentials add exactly one thing to a request: either the pair of HTTP
/// Basic authentication or one header `Authorization` at the end. Method,
/// address, query and body stay as they were.
pub proof fn lemma_authorize_attaches_one(request: RequestView, authorization: Authorization)
    ensures
        request.authorized(authorization).method == request.method,
        request.authorized(authorization).url == request.url,
        request.authorized(authorization).query == request.query,
        request.authorized(authorization).body == request.body,
        authorization matches Authorization::ApiToken { username, api_token } ==> {
            &&& request.authorized(authorization).basic_auth == Some((username@, api_token@))
            &&& request.authorized(authorization).headers == request.headers
        },
        authorization matches Authorization::AccessToken { access_token } ==> {
            &&& request.authorized(authorization).basic_auth == request.basic_auth
            &&& request.authorized(authorization).headers.len() == request.headers.len() + 1
            &&& request.authorized(authorization).headers.drop_last() == request.headers
            &&& request.authorized(authorization).headers.last() == (
                "Authorization"@,
                "Bearer "@ + access_token@,
            )
        },
{
    match authorization {
        Authorization::ApiToken { .. } => {},
        Authorization::AccessToken { access_token } => {
            assert(request.authorized(authorization).headers.drop_last() =~= request.headers);
        },
    }
}

/// A user name and its token travel as HTTP Basic credentials and add no
/// header; an access token travels as the header `Authorization: Bearer` with
/// the token, after the headers of the operation itself, and sets no Basic
/// credentials. This holds of both operations.
pub proof fn lemma_requests_carry_credentials(
    domain: Seq<char>,
    context: ViewWorklogDto,
    dto: CreateWorklogDto,
    authorization: Authorization,
)
    ensures
        authorization matches Authorization::ApiToken { username, api_token } ==> {
            &&& list_request(domain, context, authorization).basic_auth == Some(
                (username@, api_token@),
            )
            &&& create_request(domain, dto, authorization).basic_auth == Some(
                (username@, api_token@),
            )
            &&& list_request(domain, context, authorization).headers == Seq::<
                (Seq<char>, Seq<char>),
            >::empty()
            &&& create_request(domain, dto, authorization).headers == seq![
                ("Content-Type"@, "application/json"@),
            ]
        },
        authorization matches Authorization::AccessToken { access_token } ==> {
            &&& list_request(domain, context, authorization).basic_auth is None
            &&& create_request(domain, dto, authorization).basic_auth is None
            &&& list_request(domain, context, authorization).headers == seq![
                ("Authorization"@, "Bearer "@ + access_token@),
            ]
            &&& create_request(domain, dto, authorization).headers == seq![
                ("Content-Type"@, "application/json"@),
                ("Authorization"@, "Bearer "@ + access_token@),
            ]
        },
{
    match authorization {
        Authorization::ApiToken { .. } => {},
        Authorization::AccessToken { access_token } => {
            assert(list_request(domain, context, authorization).headers =~= seq![
                ("Authorization"@, "Bearer "@ + access_token@),
            ]);
            assert(create_request(domain, dto, authorization).headers =~= seq![
                ("Content-Type"@, "application/json"@),
                ("Authorization"@, "Bearer "@ + access_token@),
            ]);
        },
    }
}

/// Both operations report a status of 401 or 403 as `Unauthorized` and one of
/// 404 as the issue not found, whatever the domain and whatever was sent.
pub proof fn lemma_refusals(domain: Seq<char>, issue: Seq<char>, code: u16, parsed: bool)
    ensures
        code == 401 || code == 403 ==> {
            &&& list_failure(domain, issue, Outcome::Status(code), parsed) == Some(
                Failure::Unauthorized,
            )
            &&& create_failure(issue, Outcome::Status(code)) == Some(Failure::Unauthorized)
        },
        code == 404 ==> {
            &&& list_failure(domain, issue, Outcome::Status(code), parsed) == Some(
                Failure::NotFound { kind: "issue"@, name: issue },
            )
            &&& create_failure(issue, Outcome::Status(code)) == Some(
                Failure::NotFound { kind: "issue"@, name: issue },
            )
        },
{
}

/// A creation succeeds exactly on a success status, and a listing exactly on
/// a success status with a page of worklogs in the body.
pub proof fn lemma_success(domain: Seq<char>, issue: Seq<char>, outcome: Outcome, parsed: bool)
    ensures
        create_failure(issue, outcome) is None <==> (outcome matches Outcome::Status(code)
            && is_success(code)),
        list_failure(domain, issue, outcome, parsed) is None <==> (outcome matches Outcome::Status(
            code,
        ) && is_success(code) && parsed),
{
}

} // verus!
