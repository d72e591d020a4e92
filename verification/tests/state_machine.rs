use gitlab_todo::app::{
    Action, GitLabTodoApp, Message, PopupLimits, Timestamp, WindowId, DEFAULT_REFRESH_INTERVAL,
};
use gitlab_todo::config::{AppConfig, Config, ConfigFile, GitLabConfig};
use gitlab_todo::gitlab::{GitLabClient, GitLabResponse};

fn config() -> Config {
    Config {
        gitlab: GitLabConfig {
            url: "https://gitlab.example.com".to_string(),
            access_token: "glpat-abc".to_string(),
        },
        app: AppConfig { refresh_interval: 120 },
    }
}

fn configured() -> GitLabTodoApp {
    GitLabTodoApp::init(ConfigFile::Parsed(config()))
}

fn unconfigured() -> GitLabTodoApp {
    GitLabTodoApp::init(ConfigFile::Missing)
}

fn at(seconds: u64) -> Timestamp {
    Timestamp { nanos: seconds * 1_000_000_000 }
}

fn window(raw: u64) -> WindowId {
    WindowId { raw }
}

fn updated(result: Result<u32, String>, seconds: u64) -> Message {
    Message::TodoCountUpdated { result, at: at(seconds) }
}

#[test]
fn init_with_a_valid_configuration() {
    let app = configured();
    assert_eq!(app.label(), "⏳");
    assert_eq!(app.popup(), None);
    assert_eq!(app.todo_count(), 0);
    assert_eq!(app.last_error(), None);
    assert_eq!(app.last_update(), None);
    assert!(!app.is_fetching());
    assert_eq!(app.config(), Some(&config()));
    let client =
        GitLabClient::new("https://gitlab.example.com".to_string(), "glpat-abc".to_string());
    assert_eq!(app.client(), Some(&client));
}

#[test]
fn init_without_a_file_shows_the_error() {
    let app = unconfigured();
    assert_eq!(app.label(), "⏳");
    assert_eq!(
        app.last_error(),
        Some("Configuration error: Configuration file 'config.yaml' not found. Please copy config.yaml.example to config.yaml and customize it")
    );
    assert_eq!(app.config(), None);
    assert_eq!(app.client(), None);
    assert!(!app.is_fetching());
}

#[test]
fn init_with_the_placeholder_token_shows_the_error() {
    let mut bad = config();
    bad.gitlab.access_token = "your-token-here".to_string();
    let app = GitLabTodoApp::init(ConfigFile::Parsed(bad));
    assert_eq!(
        app.last_error(),
        Some("Configuration error: Please set a valid GitLab access token in config.yaml")
    );
    assert_eq!(app.client(), None);
    assert_eq!(app.config(), None);
}

#[test]
fn init_with_a_malformed_file_shows_the_error() {
    let app = GitLabTodoApp::init(ConfigFile::Malformed);
    assert_eq!(app.last_error(), Some("Configuration error: Failed to parse YAML configuration"));
    let app = GitLabTodoApp::init(ConfigFile::Unreadable);
    assert_eq!(
        app.last_error(),
        Some("Configuration error: Failed to read config file: config.yaml")
    );
}

#[test]
fn refresh_interval_is_configured_or_default() {
    assert_eq!(configured().refresh_interval(), 120);
    assert_eq!(unconfigured().refresh_interval(), 300);
    assert_eq!(DEFAULT_REFRESH_INTERVAL, 300);
}

#[test]
fn toggle_opens_the_popup_with_fixed_limits() {
    let mut app = configured();
    let action = app.update(Message::TogglePopup { fresh: window(41) });
    assert_eq!(
        action,
        Action::OpenPopup {
            id: window(41),
            limits: PopupLimits { min_width: 300, max_width: 400, min_height: 150, max_height: 600 },
        }
    );
    assert_eq!(app.popup(), Some(window(41)));
}

#[test]
fn toggle_twice_closes_the_popup() {
    let mut app = configured();
    app.update(Message::TogglePopup { fresh: window(1) });
    let action = app.update(Message::TogglePopup { fresh: window(2) });
    assert_eq!(action, Action::ClosePopup(window(1)));
    assert_eq!(app.popup(), None);
    let action = app.update(Message::TogglePopup { fresh: window(3) });
    assert!(matches!(action, Action::OpenPopup { id, .. } if id == window(3)));
    assert_eq!(app.popup(), Some(window(3)));
}

#[test]
fn popup_closed_clears_the_matching_handle_only() {
    let mut app = configured();
    app.update(Message::TogglePopup { fresh: window(5) });
    assert_eq!(app.update(Message::PopupClosed(window(6))), Action::Nothing);
    assert_eq!(app.popup(), Some(window(5)));
    assert_eq!(app.update(Message::PopupClosed(window(5))), Action::Nothing);
    assert_eq!(app.popup(), None);
    assert_eq!(app.update(Message::PopupClosed(window(5))), Action::Nothing);
    assert_eq!(app.popup(), None);
}

#[test]
fn refresh_starts_a_fetch() {
    let mut app = configured();
    let client =
        GitLabClient::new("https://gitlab.example.com".to_string(), "glpat-abc".to_string());
    let action = app.update(Message::RefreshNow);
    assert_eq!(action, Action::Fetch(client.todos_request()));
    assert!(app.is_fetching());
    assert_eq!(app.label(), "⏳");
}

#[test]
fn tick_starts_a_fetch() {
    let mut app = configured();
    assert!(matches!(app.update(Message::Tick), Action::Fetch(_)));
    assert!(app.is_fetching());
}

#[test]
fn no_second_fetch_while_one_is_in_flight() {
    let mut app = configured();
    let mut started = 0;
    let messages = [
        Message::Tick,
        Message::RefreshNow,
        Message::Tick,
        Message::Tick,
        Message::RefreshNow,
    ];
    for message in messages {
        if let Action::Fetch(_) = app.update(message) {
            started += 1;
        }
        assert!(app.is_fetching());
    }
    assert_eq!(started, 1);
    app.update(updated(Ok(3), 1));
    assert!(!app.is_fetching());
    assert!(matches!(app.update(Message::Tick), Action::Fetch(_)));
    assert_eq!(app.update(Message::RefreshNow), Action::Nothing);
}

#[test]
fn without_a_client_nothing_is_fetched_or_opened() {
    let mut app = unconfigured();
    assert_eq!(app.update(Message::RefreshNow), Action::Nothing);
    assert_eq!(app.update(Message::Tick), Action::Nothing);
    assert_eq!(app.update(Message::OpenGitLab), Action::Nothing);
    assert!(!app.is_fetching());
    assert_eq!(app.label(), "⏳");
}

#[test]
fn a_count_of_zero_shows_a_check_mark() {
    let mut app = configured();
    app.update(Message::Tick);
    assert_eq!(app.update(updated(Ok(0), 9)), Action::Nothing);
    assert_eq!(app.label(), "✓");
    assert_eq!(app.todo_count(), 0);
    assert_eq!(app.last_error(), None);
    assert_eq!(app.last_update(), Some(at(9)));
    assert!(!app.is_fetching());
}

#[test]
fn a_positive_count_shows_its_numeral() {
    for count in [1u32, 7, 10, 999, u32::MAX] {
        let mut app = configured();
        app.update(Message::Tick);
        app.update(updated(Ok(count), 2));
        assert_eq!(app.label(), count.to_string());
        assert_eq!(app.todo_count(), count);
    }
}

#[test]
fn an_error_shows_the_error_mark_and_keeps_the_count() {
    let mut app = configured();
    app.update(Message::Tick);
    app.update(updated(Ok(5), 10));
    app.update(Message::Tick);
    assert_eq!(app.update(updated(Err("boom".to_string()), 20)), Action::Nothing);
    assert_eq!(app.label(), "❌");
    assert_eq!(app.todo_count(), 5);
    assert_eq!(app.last_error(), Some("boom"));
    assert_eq!(app.last_update(), Some(at(10)));
    assert!(!app.is_fetching());
}

#[test]
fn a_success_clears_the_error() {
    let mut app = configured();
    app.update(Message::Tick);
    app.update(updated(Err("boom".to_string()), 1));
    assert!(matches!(app.update(Message::Tick), Action::Fetch(_)));
    app.update(updated(Ok(2), 2));
    assert_eq!(app.last_error(), None);
    assert_eq!(app.label(), "2");
}

#[test]
fn status_401_becomes_the_last_error() {
    let mut app = configured();
    app.update(Message::Tick);
    app.update(updated(Ok(5), 1));
    let action = app.update(Message::Tick);
    assert!(matches!(action, Action::Fetch(_)));
    let outcome = Ok(GitLabResponse { status: 401, x_total: Some(b"9".to_vec()) });
    let report = app.client().unwrap().fetch_report(outcome);
    app.update(updated(report, 2));
    assert_eq!(
        app.last_error(),
        Some("GitLab API request failed with status: 401 Unauthorized - Unauthorized")
    );
    assert_eq!(app.label(), "❌");
    assert_eq!(app.todo_count(), 5);
    assert!(!app.is_fetching());
}

#[test]
fn status_200_with_total_7_becomes_the_count() {
    let mut app = configured();
    app.update(Message::Tick);
    app.update(updated(Err("earlier failure".to_string()), 1));
    app.update(Message::Tick);
    let outcome = Ok(GitLabResponse { status: 200, x_total: Some(b"7".to_vec()) });
    let report = app.client().unwrap().fetch_report(outcome);
    app.update(updated(report, 2));
    assert_eq!(app.todo_count(), 7);
    assert_eq!(app.label(), "7");
    assert_eq!(app.last_error(), None);
    assert_eq!(app.last_update(), Some(at(2)));
}

#[test]
fn open_gitlab_hands_out_the_dashboard_address() {
    let mut app = configured();
    assert_eq!(
        app.update(Message::OpenGitLab),
        Action::OpenBrowser("https://gitlab.example.com/dashboard/todos".to_string())
    );
    assert!(!app.is_fetching());
}

#[test]
fn a_report_without_a_fetch_is_still_taken() {
    let mut app = unconfigured();
    app.update(updated(Ok(4), 3));
    assert_eq!(app.label(), "4");
    assert_eq!(app.last_error(), None);
    assert_eq!(app.todo_count(), 4);
}
