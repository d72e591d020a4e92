//! The state of the indicator and its reaction to each message.
//!
//! [`GitLabTodoApp::update`] takes one message, changes the state and says
//! what the host has to do next. The host does it and, where the work has a
//! result, comes back with another message.

use crate::config::{is_valid, load_spec, Config, ConfigFile, ConfigFileModel, ConfigModel};
use crate::gitlab::{
    report_view, todos_request_of, todos_url_of, ClientModel, GitLabClient, RequestModel,
    TodoRequest,
};
use crate::text::{decimal, decimal_string};
use vstd::prelude::*;
use vstd::string::*;

verus! {

/// Seconds between two automatic refreshes where no configuration says
/// otherwise.
pub const DEFAULT_REFRESH_INTERVAL: u64 = 300;

pub const POPUP_MIN_WIDTH: u32 = 300;

pub const POPUP_MAX_WIDTH: u32 = 400;

pub const POPUP_MIN_HEIGHT: u32 = 150;

pub const POPUP_MAX_HEIGHT: u32 = 600;

/// Names a window of the host.
#[derive(Clone, Copy, Debug, PartialEq, Eq, Structural)]
pub struct WindowId {
    pub raw: u64,
}

/// A reading of the host's monotonic clock, in nanoseconds.
#[derive(Clone, Copy, Debug, PartialEq, Eq, Structural)]
pub struct Timestamp {
    pub nanos: u64,
}

/// The sizes between which the popup may be laid out.
#[derive(Clone, Copy, Debug, PartialEq, Eq, Structural)]
pub struct PopupLimits {
    pub min_width: u32,
    pub max_width: u32,
    pub min_height: u32,
    pub max_height: u32,
}

/// The limits of every popup that the indicator opens.
pub open spec fn popup_limits() -> PopupLimits {
    PopupLimits {
        min_width: POPUP_MIN_WIDTH,
        max_width: POPUP_MAX_WIDTH,
        min_height: POPUP_MIN_HEIGHT,
        max_height: POPUP_MAX_HEIGHT,
    }
}

/// What can happen to the indicator.
#[derive(Debug, PartialEq, Eq)]
pub enum Message {
    /// The badge was pressed. `fresh` is an identifier that no window has
    /// yet; the popup gets it if one is opened.
    TogglePopup { fresh: WindowId },
    /// The host closed a window.
    PopupClosed(WindowId),
    /// The refresh button was pressed.
    RefreshNow,
    /// The browser button was pressed.
    OpenGitLab,
    /// A fetch ended, at the time `at`, with a count or the text of an
    /// error.
    TodoCountUpdated { result: Result<u32, String>, at: Timestamp },
    /// The refresh timer fired.
    Tick,
}

/// What a [`Message`] holds.
pub enum MessageModel {
    TogglePopup { fresh: WindowId },
    PopupClosed(WindowId),
    RefreshNow,
    OpenGitLab,
    TodoCountUpdated { result: Result<u32, Seq<char>>, at: Timestamp },
    Tick,
}

impl View for Message {
    type V = MessageModel;

    open spec fn view(&self) -> MessageModel {
        match self {
            Message::TogglePopup { fresh } => MessageModel::TogglePopup { fresh: *fresh },
            Message::PopupClosed(id) => MessageModel::PopupClosed(*id),
            Message::RefreshNow => MessageModel::RefreshNow,
            Message::OpenGitLab => MessageModel::OpenGitLab,
            Message::TodoCountUpdated { result, at } => MessageModel::TodoCountUpdated {
                result: report_view(*result),
                at: *at,
            },
            Message::Tick => MessageModel::Tick,
        }
    }
}

/// What the host has to do after a message.
#[derive(Debug, PartialEq, Eq)]
pub enum Action {
    Nothing,
    /// Destroy the popup window.
    ClosePopup(WindowId),
    /// Create the popup window under the given identifier.
    OpenPopup { id: WindowId, limits: PopupLimits },
    /// Send the request and report its outcome with
    /// [`Message::TodoCountUpdated`].
    Fetch(TodoRequest),
    /// Hand the address to the system's URL opener, ignoring failure.
    OpenBrowser(String),
}

/// What an [`Action`] holds.
pub enum ActionModel {
    Nothing,
    ClosePopup(WindowId),
    OpenPopup { id: WindowId, limits: PopupLimits },
    Fetch(RequestModel),
    OpenBrowser(Seq<char>),
}

impl View for Action {
    type V = ActionModel;

    open spec fn view(&self) -> ActionModel {
        match self {
            Action::Nothing => ActionModel::Nothing,
            Action::ClosePopup(id) => ActionModel::ClosePopup(*id),
            Action::OpenPopup { id, limits } => ActionModel::OpenPopup { id: *id, limits: *limits },
            Action::Fetch(request) => ActionModel::Fetch(request@),
            Action::OpenBrowser(url) => ActionModel::OpenBrowser(url@),
        }
    }
}

/// The indicator: what it shows and what it is waiting for.
#[derive(Debug)]
pub struct GitLabTodoApp {
    popup: Option<WindowId>,
    gitlab_client: Option<GitLabClient>,
    todo_count: u32,
    last_error: Option<String>,
    last_update: Option<Timestamp>,
    config: Option<Config>,
    is_fetching: bool,
    current_label: String,
}

/// What a [`GitLabTodoApp`] holds.
pub struct AppModel {
    /// The popup window, while it is open.
    pub popup: Option<WindowId>,
    /// The client, where a configuration was loaded.
    pub client: Option<ClientModel>,
    /// The count of the last fetch that succeeded; zero before the first.
    pub todo_count: u32,
    /// The configuration error, or the error of the last fetch if it failed.
    pub last_error: Option<Seq<char>>,
    /// When the last successful fetch ended.
    pub last_update: Option<Timestamp>,
    pub config: Option<ConfigModel>,
    /// Whether a fetch has been started and has not ended.
    pub is_fetching: bool,
    /// The text on the badge.
    pub label: Seq<char>,
}

impl View for GitLabTodoApp {
    type V = AppModel;

    closed spec fn view(&self) -> AppModel {
        AppModel {
            popup: self.popup,
            client: match self.gitlab_client {
                Some(client) => Some(client@),
                None => None,
            },
            todo_count: self.todo_count,
            last_error: match self.last_error {
                Some(text) => Some(text@),
                None => None,
            },
            last_update: self.last_update,
            config: match self.config {
                Some(config) => Some(config@),
                None => None,
            },
            is_fetching: self.is_fetching,
            label: self.current_label@,
        }
    }
}

/// The badge before the first fetch has ended.
pub open spec fn loading_label() -> Seq<char> {
    "⏳"@
}

/// The badge after a fetch that failed.
pub open spec fn error_label() -> Seq<char> {
    "❌"@
}

/// The badge for a count: a check mark for zero, else the decimal numeral.
pub open spec fn count_label(count: u32) -> Seq<char> {
    if count == 0 {
        "✓"@
    } else {
        decimal(count as nat)
    }
}

/// The client that a configuration asks for.
pub open spec fn client_of(config: ConfigModel) -> ClientModel {
    ClientModel { base_url: config.url, access_token: config.access_token }
}

/// The state in which the indicator starts, given what the host found at
/// the default path.
pub open spec fn init_spec(file: ConfigFileModel) -> AppModel {
    let loaded = load_spec("config.yaml"@, file);
    AppModel {
        popup: None,
        client: match loaded {
            Ok(config) => Some(client_of(config)),
            Err(error) => None,
        },
        todo_count: 0,
        last_error: match loaded {
            Ok(config) => None,
            Err(error) => Some("Configuration error: "@ + crate::config::describe_spec(error)),
        },
        last_update: None,
        config: match loaded {
            Ok(config) => Some(config),
            Err(error) => None,
        },
        is_fetching: false,
        label: loading_label(),
    }
}

/// The state after a message, and what the host has to do.
pub open spec fn step(state: AppModel, message: MessageModel) -> (AppModel, ActionModel) {
    match message {
        MessageModel::TogglePopup { fresh } => match state.popup {
            Some(open) => (AppModel { popup: None, ..state }, ActionModel::ClosePopup(open)),
            None => (
                AppModel { popup: Some(fresh), ..state },
                ActionModel::OpenPopup { id: fresh, limits: popup_limits() },
            ),
        },
        MessageModel::PopupClosed(id) => if state.popup == Some(id) {
            (AppModel { popup: None, ..state }, ActionModel::Nothing)
        } else {
            (state, ActionModel::Nothing)
        },
        MessageModel::RefreshNow | MessageModel::Tick => match state.client {
            Some(client) => if state.is_fetching {
                (state, ActionModel::Nothing)
            } else {
                (
                    AppModel { is_fetching: true, ..state },
                    ActionModel::Fetch(todos_request_of(client)),
                )
            },
            None => (state, ActionModel::Nothing),
        },
        MessageModel::TodoCountUpdated { result, at } => match result {
            Ok(count) => (
                AppModel {
                    is_fetching: false,
                    todo_count: count,
                    last_error: None,
                    last_update: Some(at),
                    label: count_label(count),
                    ..state
                },
                ActionModel::Nothing,
            ),
            Err(error) => (
                AppModel {
                    is_fetching: false,
                    last_error: Some(error),
                    label: error_label(),
                    ..state
                },
                ActionModel::Nothing,
            ),
        },
        MessageModel::OpenGitLab => match state.client {
            Some(client) => (state, ActionModel::OpenBrowser(todos_url_of(client))),
            None => (state, ActionModel::Nothing),
        },
    }
}

/// Seconds between two ticks of the refresh timer.
pub open spec fn refresh_interval_of(state: AppModel) -> u64 {
    match state.config {
        Some(config) => config.refresh_interval,
        None => DEFAULT_REFRESH_INTERVAL,
    }
}

/// What holds of every state that the indicator reaches: it has a client
/// exactly when it has a configuration, that configuration is valid and the
/// client is the one it asks for, and without a client nothing is being
/// fetched.
pub open spec fn coherent(state: AppModel) -> bool {
    match state.config {
        Some(config) => is_valid(config) && state.client == Some(client_of(config)),
        None => state.client is None && !state.is_fetching,
    }
}

impl GitLabTodoApp {
    /// The indicator at start, given what the host found at
    /// [`Config::default_path`].
    pub fn init(file: ConfigFile) -> (app: GitLabTodoApp)
        ensures
            app@ == init_spec(file@),
            coherent(app@),
    {
        let mut app = GitLabTodoApp {
            popup: None,
            gitlab_client: None,
            todo_count: 0,
            last_error: None,
            last_update: None,
            config: None,
            is_fetching: false,
            current_label: String::from_str("⏳"),
        };
        match Config::load(Config::default_path(), file) {
            Ok(config) => {
                let client = GitLabClient::new(
                    config.gitlab.url.clone(),
                    config.gitlab.access_token.clone(),
                );
                app.gitlab_client = Some(client);
                app.config = Some(config);
            },
            Err(error) => {
                let mut text = String::from_str("Configuration error: ");
                text.append(error.describe().as_str());
                app.last_error = Some(text);
            },
        }
        app
    }

    /// Takes one message: changes the state and returns what the host has
    /// to do.
    pub fn update(&mut self, message: Message) -> (action: Action)
        ensures
            (final(self)@, action@) == step(old(self)@, message@),
            coherent(old(self)@) ==> coherent(final(self)@),
    {
        match message {
            Message::TogglePopup { fresh } => match self.popup {
                Some(open) => {
                    self.popup = None;
                    Action::ClosePopup(open)
                },
                None => {
                    self.popup = Some(fresh);
                    Action::OpenPopup {
                        id: fresh,
                        limits: PopupLimits {
                            min_width: POPUP_MIN_WIDTH,
                            max_width: POPUP_MAX_WIDTH,
                            min_height: POPUP_MIN_HEIGHT,
                            max_height: POPUP_MAX_HEIGHT,
                        },
                    }
                },
            },
            Message::PopupClosed(id) => {
                match self.popup {
                    Some(open) => {
                        if open.raw == id.raw {
                            self.popup = None;
                        }
                    },
                    None => {},
                }
                Action::Nothing
            },
            Message::RefreshNow | Message::Tick => {
                match &self.gitlab_client {
                    Some(client) => {
                        if !self.is_fetching {
                            let request = client.todos_request();
                            self.is_fetching = true;
                            Action::Fetch(request)
                        } else {
                            Action::Nothing
                        }
                    },
                    None => Action::Nothing,
                }
            },
            Message::TodoCountUpdated { result, at } => {
                self.is_fetching = false;
                match result {
                    Ok(count) => {
                        self.todo_count = count;
                        self.last_error = None;
                        self.last_update = Some(at);
                        self.current_label = if count == 0 {
                            String::from_str("✓")
                        } else {
                            decimal_string(count as u64)
                        };
                    },
                    Err(error) => {
                        self.last_error = Some(error);
                        self.current_label = String::from_str("❌");
                    },
                }
                Action::Nothing
            },
            Message::OpenGitLab => {
                match &self.gitlab_client {
                    Some(client) => Action::OpenBrowser(client.get_todos_url()),
                    None => Action::Nothing,
                }
            },
        }
    }

    /// Seconds between two ticks of the refresh timer: the configured
    /// interval, or the default where there is no configuration.
    pub fn refresh_interval(&self) -> (seconds: u64)
        ensures
            seconds == refresh_interval_of(self@),
    {
        match &self.config {
            Some(config) => config.app.refresh_interval,
            None => DEFAULT_REFRESH_INTERVAL,
        }
    }

    /// The text on the badge.
    pub fn label(&self) -> (label: &str)
        ensures
            label@ == self@.label,
    {
        self.current_label.as_str()
    }

    pub fn popup(&self) -> (popup: Option<WindowId>)
        ensures
            popup == self@.popup,
    {
        self.popup
    }

    pub fn todo_count(&self) -> (count: u32)
        ensures
            count == self@.todo_count,
    {
        self.todo_count
    }

    pub fn is_fetching(&self) -> (fetching: bool)
        ensures
            fetching == self@.is_fetching,
    {
        self.is_fetching
    }

    pub fn last_update(&self) -> (at: Option<Timestamp>)
        ensures
            at == self@.last_update,
    {
        self.last_update
    }

    pub fn last_error(&self) -> (error: Option<&str>)
        ensures
            match error {
                Some(text) => self@.last_error == Some(text@),
                None => self@.last_error is None,
            },
    {
        match &self.last_error {
            Some(text) => Some(text.as_str()),
            None => None,
        }
    }

    pub fn config(&self) -> (config: Option<&Config>)
        ensures
            match config {
                Some(c) => self@.config == Some(c@),
                None => self@.config is None,
            },
    {
        match &self.config {
            Some(config) => Some(config),
            None => None,
        }
    }

    pub fn client(&self) -> (client: Option<&GitLabClient>)
        ensures
            match client {
                Some(c) => self@.client == Some(c@),
                None => self@.client is None,
            },
    {
        match &self.gitlab_client {
            Some(client) => Some(client),
            None => None,
        }
    }
}

} // verus!
