//! What the popup shows, as a list of rows computed from the state.
//!
//! The host draws one widget for each row, in order.

use crate::app::{AppModel, GitLabTodoApp, Timestamp};
use crate::text::{decimal, push_decimal};
use vstd::prelude::*;
use vstd::string::*;

verus! {

pub const STATUS_TEXT_SIZE: u16 = 16;

pub const AGE_TEXT_SIZE: u16 = 12;

pub const INFO_TEXT_SIZE: u16 = 10;

pub const NANOS_PER_SECOND: u64 = 1_000_000_000;

/// What pressing a button of the popup asks for.
#[derive(Clone, Copy, Debug, PartialEq, Eq, Structural)]
pub enum Press {
    /// Fetch the count now.
    RefreshNow,
    /// Show the to-do list in the browser.
    OpenGitLab,
}

/// One row of the popup.
#[derive(Debug, PartialEq, Eq)]
pub enum Row {
    Text { content: String, size: u16 },
    Button { label: String, press: Press },
}

/// What a [`Row`] holds.
pub enum RowModel {
    Text { content: Seq<char>, size: u16 },
    Button { label: Seq<char>, press: Press },
}

impl View for Row {
    type V = RowModel;

    open spec fn view(&self) -> RowModel {
        match self {
            Row::Text { content, size } => RowModel::Text { content: content@, size: *size },
            Row::Button { label, press } => RowModel::Button { label: label@, press: *press },
        }
    }
}

/// The contents of a list of rows, in order.
pub open spec fn rows_view(rows: Seq<Row>) -> Seq<RowModel> {
    rows.map_values(|row: Row| row@)
}

/// The first line of the popup: the error if there is one, else that a
/// fetch is under way if one is, else the count.
pub open spec fn status_line(state: AppModel) -> Seq<char> {
    match state.last_error {
        Some(error) => "❌ Error: "@ + error,
        None => if state.is_fetching {
            "🔄 Fetching..."@
        } else {
            "📝 TODOs: "@ + decimal(state.todo_count as nat)
        },
    }
}

/// Whole seconds from `since` to `now`; zero where `now` is the earlier.
pub open spec fn elapsed_seconds(since: Timestamp, now: Timestamp) -> u64 {
    if now.nanos >= since.nanos {
        ((now.nanos - since.nanos) / NANOS_PER_SECOND as int) as u64
    } else {
        0
    }
}

/// How long ago the count was updated: in seconds below one minute, in
/// whole minutes from there on.
pub open spec fn age_line(seconds: u64) -> Seq<char> {
    if seconds < 60 {
        "Updated "@ + decimal(seconds as nat) + " seconds ago"@
    } else {
        "Updated "@ + decimal((seconds / 60) as nat) + " minutes ago"@
    }
}

pub open spec fn refresh_button() -> RowModel {
    RowModel::Button { label: "🔄 Refresh Now"@, press: Press::RefreshNow }
}

pub open spec fn browser_button() -> RowModel {
    RowModel::Button { label: "🌐 Open GitLab TODOs"@, press: Press::OpenGitLab }
}

/// The row that tells the age of the count, once there has been an update.
pub open spec fn age_rows(state: AppModel, now: Timestamp) -> Seq<RowModel> {
    match state.last_update {
        Some(since) => seq![
            RowModel::Text { content: age_line(elapsed_seconds(since, now)), size: AGE_TEXT_SIZE },
        ],
        None => seq![],
    }
}

/// The browser button, shown while there is a client and no error.
pub open spec fn browser_rows(state: AppModel) -> Seq<RowModel> {
    if state.client is Some && state.last_error is None {
        seq![browser_button()]
    } else {
        seq![]
    }
}

/// The two rows that echo the configuration, where there is one.
pub open spec fn config_rows(state: AppModel) -> Seq<RowModel> {
    match state.config {
        Some(config) => seq![
            RowModel::Text { content: "GitLab: "@ + config.url, size: INFO_TEXT_SIZE },
            RowModel::Text {
                content: "Refresh: "@ + decimal(config.refresh_interval as nat) + "s"@,
                size: INFO_TEXT_SIZE,
            },
        ],
        None => seq![],
    }
}

/// The rows of the popup at the time `now`: the status, the age of the
/// count, the refresh button, the browser button and the configuration.
pub open spec fn popup_rows(state: AppModel, now: Timestamp) -> Seq<RowModel> {
    seq![RowModel::Text { content: status_line(state), size: STATUS_TEXT_SIZE }] + age_rows(
        state,
        now,
    ) + seq![refresh_button()] + browser_rows(state) + config_rows(state)
}

/// Whole seconds from `since` to `now`; zero where `now` is the earlier.
pub fn seconds_between(since: Timestamp, now: Timestamp) -> (seconds: u64)
    ensures
        seconds == elapsed_seconds(since, now),
{
    if now.nanos >= since.nanos {
        (now.nanos - since.nanos) / NANOS_PER_SECOND
    } else {
        0
    }
}

/// The text that tells how long ago the count was updated.
pub fn age_text(seconds: u64) -> (text: String)
    ensures
        text@ == age_line(seconds),
{
    let mut text = String::from_str("Updated ");
    if seconds < 60 {
        push_decimal(&mut text, seconds);
        text.append(" seconds ago");
    } else {
        push_decimal(&mut text, seconds / 60);
        text.append(" minutes ago");
    }
    text
}

impl GitLabTodoApp {
    /// The first line of the popup.
    pub fn status_text(&self) -> (text: String)
        ensures
            text@ == status_line(self@),
    {
        match self.last_error() {
            Some(error) => {
                let mut text = String::from_str("❌ Error: ");
                text.append(error);
                text
            },
            None => {
                if self.is_fetching() {
                    String::from_str("🔄 Fetching...")
                } else {
                    let mut text = String::from_str("📝 TODOs: ");
                    push_decimal(&mut text, self.todo_count() as u64);
                    text
                }
            },
        }
    }

    /// The rows of the popup at the time `now`.
    pub fn popup_rows(&self, now: Timestamp) -> (rows: Vec<Row>)
        ensures
            rows_view(rows@) == popup_rows(self@, now),
    {
        let mut rows: Vec<Row> = Vec::new();
        rows.push(Row::Text { content: self.status_text(), size: STATUS_TEXT_SIZE });
        match self.last_update() {
            Some(since) => {
                let age = age_text(seconds_between(since, now));
                rows.push(Row::Text { content: age, size: AGE_TEXT_SIZE });
            },
            None => {},
        }
        rows.push(
            Row::Button { label: String::from_str("🔄 Refresh Now"), press: Press::RefreshNow },
        );
        let ghost upper = seq![
            RowModel::Text { content: status_line(self@), size: STATUS_TEXT_SIZE },
        ] + age_rows(self@, now) + seq![refresh_button()];
        assert(rows_view(rows@) =~= upper);
        if self.client().is_some() && self.last_error().is_none() {
            rows.push(
                Row::Button {
                    label: String::from_str("🌐 Open GitLab TODOs"),
                    press: Press::OpenGitLab,
                },
            );
        }
        assert(rows_view(rows@) =~= upper + browser_rows(self@));
        match self.config() {
            Some(config) => {
                let mut address = String::from_str("GitLab: ");
                address.append(config.gitlab.url.as_str());
                rows.push(Row::Text { content: address, size: INFO_TEXT_SIZE });
                let mut interval = String::from_str("Refresh: ");
                push_decimal(&mut interval, config.app.refresh_interval);
                interval.append("s");
                rows.push(Row::Text { content: interval, size: INFO_TEXT_SIZE });
            },
            None => {},
        }
        assert(rows_view(rows@) =~= upper + browser_rows(self@) + config_rows(self@));
        rows
    }
}

} // verus!
