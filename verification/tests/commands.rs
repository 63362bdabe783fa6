use jwl::api::{
    ApiError, AuthorResponse, Authorization, CreateWorklogDto, PagedWorklogResponse,
    ViewWorklogDto, WorklogResponse,
};
use jwl::client::{Outcome, WorklogApi};
use jwl::commands::{render_line, render_lines, view_worklog, AddContext, ViewContext};
use jwl::config::{
    auth_methods, select_context, selected_method, AuthMethod, Config, ConfigError, Context, ReadConfigError,
};
use jwl::date::CalendarDate;

fn day(year: i32, month: u32, day: u32) -> CalendarDate {
    CalendarDate::new(year, month, day).unwrap()
}

fn worklog(author: &str, comment: Option<&str>, time_spent: &str) -> WorklogResponse {
    WorklogResponse::new(
        AuthorResponse::new(author.to_string()),
        comment.map(|c| c.to_string()),
        time_spent.to_string(),
    )
}

fn token(value: &str) -> jwl::config::Authorization {
    jwl::config::Authorization::AccessToken { access_token: value.to_string() }
}

fn context(name: Option<&str>, domain: &str) -> Context {
    Context::new(name.map(|n| n.to_string()), token(domain), domain.to_string())
}

#[test]
fn line_without_comment() {
    assert_eq!(
        render_line("ISSUE-1", &worklog("Jane", None, "2h")),
        "> ISSUE-1 <Jane> `2h` `no comment`"
    );
}

#[test]
fn line_with_comment() {
    assert_eq!(
        render_line("ISSUE-1", &worklog("Jane Doe", Some("pairing"), "1d")),
        "> ISSUE-1 <Jane Doe> `1d` pairing"
    );
    assert_eq!(render_line("", &worklog("", Some(""), "")), ">  <> `` ");
}

#[test]
fn lines_keep_the_order() {
    let logs = vec![worklog("B", None, "2h"), worklog("A", Some("x"), "30m")];
    assert_eq!(
        render_lines("I-2", &logs),
        vec!["> I-2 <B> `2h` `no comment`".to_string(), "> I-2 <A> `30m` x".to_string()]
    );
    assert!(render_lines("I-2", &Vec::new()).is_empty());
}

#[test]
fn view_window_is_the_whole_day() {
    let dto: ViewWorklogDto = ViewContext::new(day(2022, 10, 5), "XYZ-1".to_string()).into();
    assert_eq!(dto.issue(), "XYZ-1");
    assert_eq!(dto.from(), Some(day(2022, 10, 5).and_hms(0, 0, 0)));
    assert_eq!(dto.until(), Some(day(2022, 10, 5).and_hms(23, 59, 59)));
    assert_eq!(dto.from().unwrap().query_value(), "1664928000000");
    assert_eq!(dto.until().unwrap().query_value(), "1665014399000");
}

#[test]
fn add_context_becomes_the_worklog() {
    let dto: CreateWorklogDto = AddContext::new(
        day(2022, 10, 5),
        "XYZ-1".to_string(),
        Some("done".to_string()),
        "30m".to_string(),
    )
    .into();
    assert_eq!(dto.issue(), "XYZ-1");
    assert_eq!(dto.comment, Some("done".to_string()));
    assert_eq!(dto.time_spent, "30m");
    assert_eq!(dto.started, day(2022, 10, 5));
}

#[test]
fn stored_credentials_become_the_clients() {
    let stored = jwl::config::Authorization::ApiToken {
        username: "u".to_string(),
        api_token: "t".to_string(),
    };
    match Authorization::from(stored) {
        Authorization::ApiToken { username, api_token } => {
            assert_eq!(username, "u");
            assert_eq!(api_token, "t");
        }
        other => panic!("unexpected {:?}", other),
    }
    match Authorization::from(token("abc")) {
        Authorization::AccessToken { access_token } => assert_eq!(access_token, "abc"),
        other => panic!("unexpected {:?}", other),
    }
}

#[test]
fn defaults_are_empty() {
    match jwl::config::Authorization::default() {
        jwl::config::Authorization::AccessToken { access_token } => assert_eq!(access_token, ""),
        other => panic!("unexpected {:?}", other),
    }
    let context = Context::default();
    assert_eq!(context.name, None);
    assert_eq!(context.jira_domain, "");
    match Config::default() {
        Config::SingleContext(context) => {
            assert_eq!(context.name, None);
            assert_eq!(context.jira_domain, "");
        }
        other => panic!("unexpected {:?}", other),
    }
}

#[test]
fn context_new_keeps_its_parts() {
    let context = Context::new(Some("work".to_string()), token("abc"), "https://x".to_string());
    assert_eq!(context.name, Some("work".to_string()));
    assert_eq!(context.jira_domain, "https://x");
    assert!(context.has_name(&"work".to_string()));
    assert!(!context.has_name(&"home".to_string()));
    assert!(!Context::default().has_name(&String::new()));
}

#[test]
fn single_context_is_taken_whatever_the_name() {
    let found = select_context(Config::SingleContext(context(Some("a"), "one")), None).unwrap();
    assert_eq!(found.jira_domain, "one");
    let found =
        select_context(Config::SingleContext(context(None, "one")), Some("b".to_string())).unwrap();
    assert_eq!(found.jira_domain, "one");
}

#[test]
fn multiple_contexts_need_a_name() {
    let config = Config::MultipleContexts(vec![context(Some("a"), "one")]);
    let error = select_context(config, None).unwrap_err();
    assert!(matches!(error, ReadConfigError::NoContextNameGiven));
    assert_eq!(
        error.message(),
        "When using multiple contexts, a context name should be passed"
    );
}

#[test]
fn the_first_context_of_the_name_is_taken() {
    let contexts = vec![
        context(None, "zero"),
        context(Some("a"), "one"),
        context(Some("b"), "two"),
        context(Some("b"), "three"),
    ];
    let found = select_context(Config::MultipleContexts(contexts), Some("b".to_string())).unwrap();
    assert_eq!(found.jira_domain, "two");
    assert_eq!(found.name, Some("b".to_string()));
}

#[test]
fn an_unknown_name_is_reported() {
    let config = Config::MultipleContexts(vec![context(Some("a"), "one"), context(None, "two")]);
    let error = select_context(config, Some("c".to_string())).unwrap_err();
    match &error {
        ReadConfigError::ContextNotFound(name) => assert_eq!(name, "c"),
        other => panic!("unexpected {:?}", other),
    }
    assert_eq!(error.message(), "Context `c` was not found");
    let error = select_context(Config::MultipleContexts(Vec::new()), Some("c".to_string()));
    assert!(matches!(error, Err(ReadConfigError::ContextNotFound(_))));
}

#[test]
fn setup_offers_access_token_first() {
    assert_eq!(selected_method(Some(0)), Ok(AuthMethod::AccessToken));
    assert_eq!(selected_method(Some(1)), Ok(AuthMethod::ApiToken));
    assert_eq!(selected_method(Some(2)), Err(ConfigError::FailedToSelectAuthorization));
    assert_eq!(selected_method(Some(usize::MAX)), Err(ConfigError::FailedToSelectAuthorization));
    assert_eq!(selected_method(None), Err(ConfigError::FailedToSelectAuthorization));
    assert_eq!(auth_methods(), vec![AuthMethod::AccessToken, AuthMethod::ApiToken]);
    assert_eq!(AuthMethod::AccessToken.label(), "Access token");
    assert_eq!(AuthMethod::ApiToken.label(), "Api token");
    assert_eq!(
        ConfigError::FailedToSelectAuthorization.message(),
        "A invalid authorization method was selected"
    );
}

#[test]
fn view_shows_one_line_for_a_page_of_one() {
    let api = WorklogApi::new("https://example.atlassian.net".to_string());
    let dto: ViewWorklogDto = ViewContext::new(day(2022, 10, 5), "ISSUE-1".to_string()).into();
    let page = PagedWorklogResponse::new(vec![worklog("Jane", None, "2h")]);
    let lines = view_worklog(&api, &dto, Outcome::Status(200), Some(page)).unwrap();
    assert_eq!(lines, vec!["> ISSUE-1 <Jane> `2h` `no comment`".to_string()]);
}

#[test]
fn view_shows_nothing_for_an_empty_page() {
    let api = WorklogApi::new("https://example.atlassian.net".to_string());
    let dto: ViewWorklogDto = ViewContext::new(day(2022, 10, 5), "ISSUE-1".to_string()).into();
    let page = PagedWorklogResponse::new(Vec::new());
    let lines = view_worklog(&api, &dto, Outcome::Status(200), Some(page)).unwrap();
    assert!(lines.is_empty());
}

#[test]
fn view_passes_the_failure_on() {
    let api = WorklogApi::new("https://example.atlassian.net".to_string());
    let dto: ViewWorklogDto = ViewContext::new(day(2022, 10, 5), "XYZ-1".to_string()).into();
    match view_worklog(&api, &dto, Outcome::Status(404), None) {
        Err(ApiError::NotFound { kind, name }) => {
            assert_eq!(kind, "issue");
            assert_eq!(name, "XYZ-1");
        }
        other => panic!("unexpected {:?}", other),
    }
    assert!(matches!(
        view_worklog(&api, &dto, Outcome::Status(200), None),
        Err(ApiError::SerializationError)
    ));
}
