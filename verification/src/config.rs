//! The stored configuration: one context, or several told apart by name.

use crate::api;
use vstd::prelude::*;
use vstd::std_specs::convert::FromSpecImpl;
use vstd::string::StringExecFns;

verus! {

/// The credentials of a user, as the configuration stores them.
#[derive(Debug, Clone)]
pub enum Authorization {
    /// A user name with an API token as its password.
    ApiToken { username: String, api_token: String },
    /// A bearer token.
    AccessToken { access_token: String },
}

impl Default for Authorization {
    /// An empty access token.
    fn default() -> (authorization: Authorization)
        ensures
            authorization matches Authorization::AccessToken { access_token } && access_token@
                == Seq::<char>::empty(),
    {
        Authorization::AccessToken { access_token: String::new() }
    }
}

impl From<Authorization> for api::Authorization {
    /// The same credentials, as the client takes them.
    fn from(auth: Authorization) -> (authorization: api::Authorization) {
        match auth {
            Authorization::ApiToken { username, api_token } => api::Authorization::ApiToken {
                username,
                api_token,
            },
            Authorization::AccessToken { access_token } => api::Authorization::AccessToken {
                access_token,
            },
        }
    }
}

impl FromSpecImpl<Authorization> for api::Authorization {
    open spec fn obeys_from_spec() -> bool {
        true
    }

    open spec fn from_spec(auth: Authorization) -> api::Authorization {
        match auth {
            Authorization::ApiToken { username, api_token } => api::Authorization::ApiToken {
                username,
                api_token,
            },
            Authorization::AccessToken { access_token } => api::Authorization::AccessToken {
                access_token,
            },
        }
    }
}

/// A tracker and the credentials for it, under an optional name.
#[derive(Debug)]
pub struct Context {
    pub name: Option<String>,
    pub authorization: Authorization,
    pub jira_domain: String,
}

impl Context {
    /// The context with these parts.
    pub fn new(name: Option<String>, authorization: Authorization, jira_domain: String) -> (context:
        Context)
        ensures
            context.name == name,
            context.authorization == authorization,
            context.jira_domain == jira_domain,
    {
        Context { name, authorization, jira_domain }
    }

    /// Whether the context has no name, an empty access token and an empty
    /// domain.
    pub open spec fn is_default(self) -> bool {
        &&& self.name is None
        &&& self.authorization matches Authorization::AccessToken { access_token }
            && access_token@ == Seq::<char>::empty()
        &&& self.jira_domain@ == Seq::<char>::empty()
    }

    /// Whether the context goes by this name.
    pub open spec fn is_named(self, name: Seq<char>) -> bool {
        self.name matches Some(n) && n@ == name
    }

    /// Whether the context goes by this name.
    pub fn has_name(&self, name: &String) -> (named: bool)
        ensures
            named == self.is_named(name@),
    {
        match &self.name {
            Some(n) => *n == *name,
            None => false,
        }
    }
}

impl Default for Context {
    /// A context without a name, with an empty access token and an empty domain.
    fn default() -> (context: Context)
        ensures
            context.is_default(),
    {
        Context { name: None, authorization: Authorization::default(), jira_domain: String::new() }
    }
}

/// What the configuration file holds.
#[derive(Debug)]
pub enum Config {
    SingleContext(Context),
    MultipleContexts(Vec<Context>),
}

impl Default for Config {
    /// The default context alone.
    fn default() -> (config: Config)
        ensures
            config matches Config::SingleContext(context) && context.is_default(),
    {
        Config::SingleContext(Context::default())
    }
}

/// Why no context could be taken from the configuration, with texts as
/// sequences of characters.
pub enum ReadConfigFailure {
    NoContextNameGiven,
    ContextNotFound(Seq<char>),
}

impl ReadConfigFailure {
    /// The line shown to the user.
    pub open spec fn message(self) -> Seq<char> {
        match self {
            ReadConfigFailure::NoContextNameGiven => "When using multiple contexts, a context name should be passed"@,
            ReadConfigFailure::ContextNotFound(name) => "Context `"@ + name + "` was not found"@,
        }
    }
}

/// Why no context could be taken from the configuration.
#[derive(Debug)]
pub enum ReadConfigError {
    /// Several contexts are configured and none was asked for by name.
    NoContextNameGiven,
    /// No configured context has the name that was asked for.
    ContextNotFound(String),
}

impl View for ReadConfigError {
    type V = ReadConfigFailure;

    open spec fn view(&self) -> ReadConfigFailure {
        match self {
            ReadConfigError::NoContextNameGiven => ReadConfigFailure::NoContextNameGiven,
            ReadConfigError::ContextNotFound(name) => ReadConfigFailure::ContextNotFound(name@),
        }
    }
}

impl ReadConfigError {
    /// The line shown to the user.
    pub fn message(&self) -> (line: String)
        ensures
            line@ == self@.message(),
    {
        match self {
            ReadConfigError::NoContextNameGiven => String::from_str(
                "When using multiple contexts, a context name should be passed",
            ),
            ReadConfigError::ContextNotFound(name) => {
                let mut line = String::from_str("Context `");
                line.append(name.as_str());
                line.append("` was not found");
                line
            },
        }
    }
}

/// The position of the first context at or after `start` that goes by `name`.
pub open spec fn first_named(contexts: Seq<Context>, name: Seq<char>, start: int) -> Option<int>
    decreases contexts.len() - start,
{
    if start < 0 || start >= contexts.len() {
        None
    } else if contexts[start].is_named(name) {
        Some(start)
    } else {
        first_named(contexts, name, start + 1)
    }
}

/// The context that a configuration gives for the name that was asked for:
/// the single one whatever the name, else the first of that name.
pub open spec fn selected(config: Config, name: Option<String>) -> Result<
    Context,
    ReadConfigFailure,
> {
    match config {
        Config::SingleContext(context) => Ok(context),
        Config::MultipleContexts(contexts) => match name {
            None => Err(ReadConfigFailure::NoContextNameGiven),
            Some(n) => match first_named(contexts@, n@, 0) {
                Some(i) => Ok(contexts@[i]),
                None => Err(ReadConfigFailure::ContextNotFound(n@)),
            },
        },
    }
}

/// Takes from the configuration the context to work with.
#[verifier::loop_isolation(false)]
pub fn select_context(config: Config, name: Option<String>) -> (context: Result<
    Context,
    ReadConfigError,
>)
    ensures
        match selected(config, name) {
            Ok(found) => context matches Ok(c) && c == found,
            Err(failure) => context matches Err(e) && e@ == failure,
        },
{
    match config {
        Config::SingleContext(context) => Ok(context),
        Config::MultipleContexts(contexts) => {
            let name = match name {
                Some(n) => n,
                None => {
                    return Err(ReadConfigError::NoContextNameGiven);
                },
            };
            let mut contexts = contexts;
            let ghost all = contexts@;
            let mut i: usize = 0;
            while i < contexts.len()
                invariant
                    contexts@ == all,
                    i <= contexts.len(),
                    first_named(all, name@, 0) == first_named(all, name@, i as int),
                decreases contexts.len() - i,
            {
                if contexts[i].has_name(&name) {
                    return Ok(contexts.remove(i));
                }
                i += 1;
            }
            Err(ReadConfigError::ContextNotFound(name))
        },
    }
}

/// A name selects a context only if that context goes by it, and then it is
/// the first such context: none before it has the name.
pub proof fn lemma_first_named(contexts: Seq<Context>, name: Seq<char>, start: int)
    requires
        0 <= start,
    ensures
        match first_named(contexts, name, start) {
            Some(i) => {
                &&& start <= i < contexts.len()
                &&& contexts[i].is_named(name)
                &&& forall|j: int| start <= j < i ==> !(#[trigger] contexts[j]).is_named(name)
            },
            None => forall|j: int|
                start <= j < contexts.len() ==> !(#[trigger] contexts[j]).is_named(name),
        },
    decreases contexts.len() - start,
{
    if start < contexts.len() && !contexts[start].is_named(name) {
        lemma_first_named(contexts, name, start + 1);
    }
}

/// Why the configuration could not be set up.
#[derive(Debug, Clone, Copy, PartialEq, Eq)]
pub enum ConfigError {
    /// The selection names no way to authorize.
    FailedToSelectAuthorization,
}

impl ConfigError {
    /// The line shown to the user.
    pub fn message(&self) -> (line: String)
        ensures
            line@ == "A invalid authorization method was selected"@,
    {
        String::from_str("A invalid authorization method was selected")
    }
}

/// A way to authorize that the setup offers.
#[derive(Debug, Clone, Copy, PartialEq, Eq)]
pub enum AuthMethod {
    AccessToken,
    ApiToken,
}

impl AuthMethod {
    /// The text under which the setup offers this way.
    pub fn label(&self) -> (label: &'static str)
        ensures
            label@ == match *self {
                AuthMethod::AccessToken => "Access token"@,
                AuthMethod::ApiToken => "Api token"@,
            },
    {
        match self {
            AuthMethod::AccessToken => "Access token",
            AuthMethod::ApiToken => "Api token",
        }
    }
}

/// The ways to authorize in the order in which the setup offers them.
pub open spec fn offered_methods() -> Seq<AuthMethod> {
    seq![AuthMethod::AccessToken, AuthMethod::ApiToken]
}

/// The ways to authorize in the order in which the setup offers them.
pub fn auth_methods() -> (methods: Vec<AuthMethod>)
    ensures
        methods@ == offered_methods(),
{
    let mut methods: Vec<AuthMethod> = Vec::new();
    methods.push(AuthMethod::AccessToken);
    methods.push(AuthMethod::ApiToken);
    assert(methods@ =~= offered_methods());
    methods
}

/// The way to authorize at a position of the setup's list. No selection, or
/// one past the end of the list, is an error.
pub fn selected_method(selection: Option<usize>) -> (method: Result<AuthMethod, ConfigError>)
    ensures
        method == match selection {
            Some(position) => if position < offered_methods().len() {
                Ok::<AuthMethod, ConfigError>(offered_methods()[position as int])
            } else {
                Err(ConfigError::FailedToSelectAuthorization)
            },
            None => Err(ConfigError::FailedToSelectAuthorization),
        },
{
    match selection {
        Some(0) => Ok(AuthMethod::AccessToken),
        Some(1) => Ok(AuthMethod::ApiToken),
        _ => Err(ConfigError::FailedToSelectAuthorization),
    }
}

} // verus!
