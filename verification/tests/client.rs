use jwl::api::{
    ApiError, AuthorResponse, Authorization, CreateWorklogDto, PagedWorklogResponse,
    ViewWorklogDto, WorklogAddBody, WorklogResponse,
};
use jwl::client::{check_status, status_is_success, Method, Outcome, Request, WorklogApi};
use jwl::date::CalendarDate;

fn day(year: i32, month: u32, day: u32) -> CalendarDate {
    CalendarDate::new(year, month, day).unwrap()
}

fn pair(name: &str, value: &str) -> (String, String) {
    (name.to_string(), value.to_string())
}

fn api_token() -> Authorization {
    Authorization::ApiToken { username: "u".to_string(), api_token: "t".to_string() }
}

fn access_token() -> Authorization {
    Authorization::AccessToken { access_token: "abc".to_string() }
}

fn api() -> WorklogApi {
    WorklogApi::new("https://example.atlassian.net".to_string())
}

fn window(issue: &str) -> ViewWorklogDto {
    let date = day(2022, 10, 5);
    ViewWorklogDto::new(
        issue.to_string(),
        Some(date.and_hms(0, 0, 0)),
        Some(date.and_hms(23, 59, 59)),
    )
}

fn worklog(author: &str, comment: Option<&str>, time_spent: &str) -> WorklogResponse {
    WorklogResponse::new(
        AuthorResponse::new(author.to_string()),
        comment.map(|c| c.to_string()),
        time_spent.to_string(),
    )
}

fn dto(comment: Option<&str>) -> CreateWorklogDto {
    CreateWorklogDto::new(
        "XYZ-1".to_string(),
        comment.map(|c| c.to_string()),
        "2h".to_string(),
        day(2022, 10, 5),
    )
}

#[test]
fn worklog_url_joins_domain_and_issue() {
    assert_eq!(
        api().worklog_url("XYZ-1"),
        "https://example.atlassian.net/rest/api/2/issue/XYZ-1/worklog"
    );
    assert_eq!(WorklogApi::new(String::new()).worklog_url(""), "/rest/api/2/issue//worklog");
}

#[test]
fn api_token_is_sent_as_basic_credentials() {
    let request = api().list_request(&window("XYZ-1"), &api_token());
    assert_eq!(request.basic_auth, Some(pair("u", "t")));
    assert!(request.headers.is_empty());
}

#[test]
fn access_token_is_sent_as_bearer_header() {
    let request = api().list_request(&window("XYZ-1"), &access_token());
    assert_eq!(request.basic_auth, None);
    assert_eq!(request.headers, vec![pair("Authorization", "Bearer abc")]);
}

#[test]
fn authorize_leaves_the_rest_of_the_request() {
    let request = Request {
        method: Method::Post,
        url: "u".to_string(),
        query: vec![pair("a", "b")],
        headers: vec![pair("X", "y")],
        basic_auth: None,
        body: None,
    };
    let authorized = request.authorize(&access_token());
    assert_eq!(authorized.method, Method::Post);
    assert_eq!(authorized.url, "u");
    assert_eq!(authorized.query, vec![pair("a", "b")]);
    assert_eq!(authorized.headers, vec![pair("X", "y"), pair("Authorization", "Bearer abc")]);
    assert_eq!(authorized.basic_auth, None);
    assert!(authorized.body.is_none());
}

#[test]
fn list_request_carries_both_bounds() {
    let request = api().list_request(&window("XYZ-1"), &api_token());
    assert_eq!(request.method, Method::Get);
    assert_eq!(request.url, "https://example.atlassian.net/rest/api/2/issue/XYZ-1/worklog");
    assert_eq!(
        request.query,
        vec![pair("startedAfter", "1664928000000"), pair("startedBefore", "1665014399000")]
    );
    assert!(request.body.is_none());
}

#[test]
fn list_request_leaves_out_absent_bounds() {
    let unbounded = ViewWorklogDto::new("XYZ-1".to_string(), None, None);
    assert!(api().list_request(&unbounded, &api_token()).query.is_empty());
    let from_only =
        ViewWorklogDto::new("XYZ-1".to_string(), Some(day(1970, 1, 2).and_hms(0, 0, 0)), None);
    assert_eq!(
        api().list_request(&from_only, &api_token()).query,
        vec![pair("startedAfter", "86400000")]
    );
    let until_only =
        ViewWorklogDto::new("XYZ-1".to_string(), None, Some(day(1970, 1, 1).and_hms(23, 59, 59)));
    assert_eq!(
        api().list_request(&until_only, &api_token()).query,
        vec![pair("startedBefore", "86399000")]
    );
}

#[test]
fn create_request_posts_json() {
    let request = api().create_request(dto(Some("done")), &access_token());
    assert_eq!(request.method, Method::Post);
    assert_eq!(request.url, "https://example.atlassian.net/rest/api/2/issue/XYZ-1/worklog");
    assert!(request.query.is_empty());
    assert_eq!(
        request.headers,
        vec![pair("Content-Type", "application/json"), pair("Authorization", "Bearer abc")]
    );
    let body = request.body.unwrap();
    assert_eq!(body.comment, Some("done".to_string()));
    assert_eq!(body.time_spent, "2h");
    assert_eq!(body.started, "2022-10-05T12:00:00.000+0000");
}

#[test]
fn create_request_with_api_token() {
    let request = api().create_request(dto(None), &api_token());
    assert_eq!(request.headers, vec![pair("Content-Type", "application/json")]);
    assert_eq!(request.basic_auth, Some(pair("u", "t")));
}

#[test]
fn body_without_comment_has_no_comment() {
    let body = WorklogAddBody::from(dto(None));
    assert_eq!(body.comment, None);
    assert_ne!(body.comment, Some(String::new()));
    assert_eq!(body.time_spent, "2h");
    assert_eq!(body.started, "2022-10-05T12:00:00.000+0000");
}

#[test]
fn body_keeps_an_empty_comment() {
    let body = WorklogAddBody::from(dto(Some("")));
    assert_eq!(body.comment, Some(String::new()));
}

#[test]
fn success_is_the_range_of_200() {
    assert!(status_is_success(200));
    assert!(status_is_success(204));
    assert!(status_is_success(299));
    assert!(!status_is_success(199));
    assert!(!status_is_success(300));
    assert!(!status_is_success(0));
    assert!(!status_is_success(u16::MAX));
}

#[test]
fn check_status_classifies() {
    assert!(check_status(200, "XYZ-1").is_ok());
    assert!(check_status(201, "XYZ-1").is_ok());
    assert!(matches!(check_status(401, "XYZ-1"), Err(ApiError::Unauthorized)));
    assert!(matches!(check_status(403, "XYZ-1"), Err(ApiError::Unauthorized)));
    assert!(matches!(check_status(500, "XYZ-1"), Err(ApiError::UnknownError)));
    assert!(matches!(check_status(302, "XYZ-1"), Err(ApiError::UnknownError)));
    assert!(matches!(check_status(400, "XYZ-1"), Err(ApiError::UnknownError)));
    match check_status(404, "XYZ-1") {
        Err(ApiError::NotFound { kind, name }) => {
            assert_eq!(kind, "issue");
            assert_eq!(name, "XYZ-1");
        }
        other => panic!("unexpected {:?}", other),
    }
}

#[test]
fn list_reports_a_missing_issue() {
    match api().worklogs(&window("XYZ-1"), Outcome::Status(404), None) {
        Err(ApiError::NotFound { kind, name }) => {
            assert_eq!(kind, "issue");
            assert_eq!(name, "XYZ-1");
        }
        other => panic!("unexpected {:?}", other),
    }
}

#[test]
fn unauthorized_for_either_operation() {
    assert!(matches!(
        api().worklogs(&window("XYZ-1"), Outcome::Status(401), None),
        Err(ApiError::Unauthorized)
    ));
    assert!(matches!(
        api().create_worklog(&dto(None), Outcome::Status(401)),
        Err(ApiError::Unauthorized)
    ));
    assert!(matches!(
        api().worklogs(&window("XYZ-1"), Outcome::Status(403), None),
        Err(ApiError::Unauthorized)
    ));
    assert!(matches!(
        api().create_worklog(&dto(None), Outcome::Status(403)),
        Err(ApiError::Unauthorized)
    ));
}

#[test]
fn list_returns_the_page_in_order() {
    let page = PagedWorklogResponse::new(vec![
        worklog("Jane", None, "2h"),
        worklog("Joe", Some("standup"), "30m"),
    ]);
    assert_eq!(page.worklogs().len(), 2);
    let logs = api().worklogs(&window("XYZ-1"), Outcome::Status(200), Some(page)).unwrap();
    assert_eq!(logs.len(), 2);
    assert_eq!(logs[0].author().display_name(), "Jane");
    assert_eq!(logs[0].comment(), None);
    assert_eq!(logs[0].time_spent(), "2h");
    assert_eq!(logs[1].author().display_name(), "Joe");
    assert_eq!(logs[1].comment(), Some(&"standup".to_string()));
    assert_eq!(logs[1].time_spent(), "30m");
}

#[test]
fn list_reports_a_body_that_is_no_page() {
    assert!(matches!(
        api().worklogs(&window("XYZ-1"), Outcome::Status(200), None),
        Err(ApiError::SerializationError)
    ));
}

#[test]
fn list_checks_the_status_before_the_body() {
    let page = PagedWorklogResponse::new(vec![worklog("Jane", None, "2h")]);
    assert!(matches!(
        api().worklogs(&window("XYZ-1"), Outcome::Status(500), Some(page)),
        Err(ApiError::UnknownError)
    ));
}

#[test]
fn list_tells_an_unusable_domain_from_other_failures() {
    match WorklogApi::new("not a url".to_string()).worklogs(
        &window("XYZ-1"),
        Outcome::BuilderError,
        None,
    ) {
        Err(ApiError::InvalidBaseUrl { base_url }) => assert_eq!(base_url, "not a url"),
        other => panic!("unexpected {:?}", other),
    }
    assert!(matches!(
        api().worklogs(&window("XYZ-1"), Outcome::TransportError, None),
        Err(ApiError::UnknownError)
    ));
}

#[test]
fn create_classifies() {
    assert!(api().create_worklog(&dto(None), Outcome::Status(201)).is_ok());
    assert!(api().create_worklog(&dto(None), Outcome::Status(200)).is_ok());
    assert!(matches!(
        api().create_worklog(&dto(None), Outcome::BuilderError),
        Err(ApiError::UnknownError)
    ));
    assert!(matches!(
        api().create_worklog(&dto(None), Outcome::TransportError),
        Err(ApiError::UnknownError)
    ));
    assert!(matches!(
        api().create_worklog(&dto(None), Outcome::Status(500)),
        Err(ApiError::UnknownError)
    ));
    match api().create_worklog(&dto(None), Outcome::Status(404)) {
        Err(ApiError::NotFound { kind, name }) => {
            assert_eq!(kind, "issue");
            assert_eq!(name, "XYZ-1");
        }
        other => panic!("unexpected {:?}", other),
    }
}

#[test]
fn api_error_messages() {
    assert_eq!(
        ApiError::InvalidBaseUrl { base_url: "x y".to_string() }.message(),
        "A invalid base url was used `x y`"
    );
    assert_eq!(ApiError::Unauthorized.message(), "This user is not authorized for this action");
    assert_eq!(
        ApiError::NotFound { kind: "issue".to_string(), name: "XYZ-1".to_string() }.message(),
        "The issue `XYZ-1` was not found, or the user was unauthorized"
    );
    assert_eq!(ApiError::SerializationError.message(), "Failed to serialize the response");
    assert_eq!(ApiError::UnknownError.message(), "A unknown api error occured");
}

#[test]
fn dto_getters() {
    let view = window("XYZ-1");
    assert_eq!(view.issue(), "XYZ-1");
    assert_eq!(view.from(), Some(day(2022, 10, 5).and_hms(0, 0, 0)));
    assert_eq!(view.until(), Some(day(2022, 10, 5).and_hms(23, 59, 59)));
    assert_eq!(dto(None).issue(), "XYZ-1");
    assert_eq!(api().domain, "https://example.atlassian.net");
}
