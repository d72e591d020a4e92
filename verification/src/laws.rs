//! What holds of the indicator whatever messages arrive, stated over
//! [`step`] and proved.

use crate::app::{
    coherent, count_label, error_label, init_spec, step, ActionModel, AppModel, MessageModel,
    Timestamp, WindowId,
};
use crate::config::ConfigFileModel;
use crate::gitlab::{is_success, report_spec, todos_request_of, ResponseModel};
use crate::text::{ascii_bytes, decimal, lemma_parse_reads_decimal};
use vstd::prelude::*;

verus! {

/// The indicator starts in a coherent state, whatever the host found.
pub proof fn lemma_init_is_coherent(file: ConfigFileModel)
    ensures
        coherent(init_spec(file)),
        !init_spec(file).is_fetching,
        init_spec(file).popup is None,
        init_spec(file).client is Some <==> init_spec(file).last_error is None,
{
}

/// No message leads from a coherent state to one that is not, and none
/// changes the configuration or the client.
pub proof fn lemma_step_keeps_coherent(state: AppModel, message: MessageModel)
    ensures
        coherent(state) ==> coherent(step(state, message).0),
        step(state, message).0.config == state.config,
        step(state, message).0.client == state.client,
{
}

/// While a fetch is under way, a refresh request and a tick of the timer
/// start no other: the state stays as it is and the host has nothing to do.
pub proof fn lemma_no_second_fetch(state: AppModel, message: MessageModel)
    requires
        state.is_fetching,
        message is RefreshNow || message is Tick,
    ensures
        step(state, message) == (state, ActionModel::Nothing),
{
}

/// A fetch is started by a refresh request or a tick only, and only when
/// there is a client and no fetch is under way; it is then marked as under
/// way.
pub proof fn lemma_fetch_starts_when_idle(state: AppModel, message: MessageModel)
    ensures
        step(state, message).1 is Fetch <==> (message is RefreshNow || message is Tick)
            && state.client is Some && !state.is_fetching,
        step(state, message).1 is Fetch ==> step(state, message).0.is_fetching && step(
            state,
            message,
        ).1 == ActionModel::Fetch(todos_request_of(state.client->0)),
{
}

/// The number of fetches that a state accounts for: one while a fetch is
/// under way, else none.
pub open spec fn in_flight(state: AppModel) -> int {
    if state.is_fetching {
        1
    } else {
        0
    }
}

/// The state after a sequence of messages, taken in order.
pub open spec fn run(state: AppModel, messages: Seq<MessageModel>) -> AppModel
    decreases messages.len(),
{
    if messages.len() == 0 {
        state
    } else {
        step(run(state, messages.drop_last()), messages.last()).0
    }
}

/// The fetches that have been started and have not ended after a sequence
/// of messages: those of the first state, plus one for each fetch that the
/// host was asked for, minus one for each fetch reported as ended.
pub open spec fn pending_fetches(state: AppModel, messages: Seq<MessageModel>) -> int
    decreases messages.len(),
{
    if messages.len() == 0 {
        in_flight(state)
    } else {
        let before = run(state, messages.drop_last());
        let started: int = if step(before, messages.last()).1 is Fetch {
            1
        } else {
            0
        };
        let ended: int = if messages.last() is TodoCountUpdated {
            1
        } else {
            0
        };
        pending_fetches(state, messages.drop_last()) + started - ended
    }
}

/// Whether each report of an ended fetch in the sequence arrives while a
/// fetch is pending, as it does where the host reports what it was asked
/// for and nothing else.
pub open spec fn reports_answer_fetches(state: AppModel, messages: Seq<MessageModel>) -> bool {
    forall|k: int|
        0 <= k < messages.len() && (#[trigger] messages[k]) is TodoCountUpdated
            ==> pending_fetches(state, messages.take(k)) > 0
}

/// Where the host reports only fetches that it was asked for, at most one
/// fetch is pending at any time, and one is pending exactly while the state
/// says that a fetch is under way.
pub proof fn lemma_at_most_one_fetch_in_flight(state: AppModel, messages: Seq<MessageModel>)
    requires
        reports_answer_fetches(state, messages),
    ensures
        pending_fetches(state, messages) == in_flight(run(state, messages)),
        0 <= pending_fetches(state, messages) <= 1,
    decreases messages.len(),
{
    if messages.len() > 0 {
        let earlier = messages.drop_last();
        assert forall|k: int|
            0 <= k < earlier.len() && (#[trigger] earlier[k]) is TodoCountUpdated implies pending_fetches(
            state,
            earlier.take(k),
        ) > 0 by {
            assert(messages[k] is TodoCountUpdated);
            assert(earlier.take(k) =~= messages.take(k));
        }
        lemma_at_most_one_fetch_in_flight(state, earlier);
        if messages.last() is TodoCountUpdated {
            let last = messages.len() - 1;
            assert(messages[last] is TodoCountUpdated);
            assert(messages.take(last) =~= earlier);
        }
    }
}

/// A report of a count of zero puts a check mark on the badge, and a report
/// of any other count its decimal numeral; either stores the count and the
/// time, and clears the error. A report of an error puts the error mark on
/// the badge and stores the error, and leaves the count and the time of the
/// last update as they were. After any report no fetch is under way.
pub proof fn lemma_report_sets_badge(
    state: AppModel,
    result: Result<u32, Seq<char>>,
    at: Timestamp,
)
    ensures
        ({
            let after = step(state, MessageModel::TodoCountUpdated { result, at }).0;
            &&& !after.is_fetching
            &&& match result {
                Ok(count) => {
                    &&& count == 0 ==> after.label == "✓"@
                    &&& count > 0 ==> after.label == decimal(count as nat)
                    &&& after.label == count_label(count)
                    &&& after.todo_count == count
                    &&& after.last_error is None
                    &&& after.last_update == Some(at)
                },
                Err(error) => {
                    &&& after.label == "❌"@
                    &&& after.label == error_label()
                    &&& after.todo_count == state.todo_count
                    &&& after.last_error == Some(error)
                    &&& after.last_update == state.last_update
                },
            }
        }),
{
}

/// A response that reports success and whose `X-Total` header is the
/// decimal numeral of a count puts that count into the state and on the
/// badge, and clears the error.
pub proof fn lemma_fetched_total_is_shown(
    state: AppModel,
    status: u16,
    count: u32,
    at: Timestamp,
)
    requires
        is_success(status),
    ensures
        ({
            let response = ResponseModel {
                status,
                x_total: Some(ascii_bytes(decimal(count as nat))),
            };
            let report = report_spec(Ok(response));
            let after = step(state, MessageModel::TodoCountUpdated { result: report, at }).0;
            &&& report == Ok::<u32, Seq<char>>(count)
            &&& after.todo_count == count
            &&& after.label == count_label(count)
            &&& after.last_error is None
        }),
{
    lemma_parse_reads_decimal(count);
}

/// Pressing the badge while the popup is closed opens it under the fresh
/// identifier; pressing it again closes it, and the state is what it was
/// before the first press.
pub proof fn lemma_toggle_twice_closes(state: AppModel, first: WindowId, second: WindowId)
    requires
        state.popup is None,
    ensures
        ({
            let opened = step(state, MessageModel::TogglePopup { fresh: first });
            let closed = step(opened.0, MessageModel::TogglePopup { fresh: second });
            &&& opened.0.popup == Some(first)
            &&& opened.1 is OpenPopup
            &&& closed.0.popup is None
            &&& closed.1 == ActionModel::ClosePopup(first)
            &&& closed.0 == state
        }),
{
}

/// The host's notice that a window was closed clears the popup exactly when
/// it names the popup; it changes nothing else and asks for nothing.
pub proof fn lemma_closed_window_clears_popup(state: AppModel, id: WindowId)
    ensures
        ({
            let after = step(state, MessageModel::PopupClosed(id));
            &&& after.1 == ActionModel::Nothing
            &&& after.0 == AppModel {
                popup: if state.popup == Some(id) {
                    None
                } else {
                    state.popup
                },
                ..state
            }
        }),
{
}

/// Without a client, which is to say after a configuration error, a refresh
/// request, a tick and the browser button do nothing.
pub proof fn lemma_no_client_no_action(state: AppModel, message: MessageModel)
    requires
        state.client is None,
        message is RefreshNow || message is Tick || message is OpenGitLab,
    ensures
        step(state, message) == (state, ActionModel::Nothing),
{
}

/// A failed fetch does not stop the refreshing: the next tick or refresh
/// request after the report of an error starts a fetch again.
pub proof fn lemma_error_is_retried(
    state: AppModel,
    error: Seq<char>,
    at: Timestamp,
    message: MessageModel,
)
    requires
        state.client is Some,
        message is RefreshNow || message is Tick,
    ensures
        ({
            let failed = step(state, MessageModel::TodoCountUpdated { result: Err(error), at }).0;
            step(failed, message).1 == ActionModel::Fetch(todos_request_of(state.client->0))
        }),
{
}

} // verus!
