//! What commands, tools and the other items keep of their events, and their events of them.

use vstd::prelude::*;

use crate::items::activity::{
    FileChangeItemView, ImageGenerationItemView, ImageViewItemView, SubAgentActivityItemView,
    WebSearchItemView,
};
use crate::items::command::{CommandExecutionItemView, CommandExecutionStatus};
use crate::items::tool_call::{
    DynamicToolCallItemView, DynamicToolCallStatus, McpToolCallItemView,
};
use crate::items::TurnItemView;
use crate::protocol::{
    DynamicToolCallRequestView, DynamicToolCallResponseEventView, EventMsgView,
    ExecCommandBeginEventView, ExecCommandEndEventView, ExecCommandStatus, PatchApplyStatus,
    SubAgentActivityEventView,
};

verus! {

/// A command that was begun is the one that its event describes, is in progress, and has come to
/// nothing yet.
pub proof fn law_begun_command(event: ExecCommandBeginEventView)
    ensures
        ({
            let item = CommandExecutionItemView::from_begin(event);
            &&& item.id == event.call_id
            &&& item.process_id == event.process_id
            &&& item.command == event.command
            &&& item.cwd == event.cwd
            &&& item.parsed_cmd == event.parsed_cmd
            &&& item.source == event.source
            &&& item.interaction_input == event.interaction_input
            &&& item.status == CommandExecutionStatus::InProgress
            &&& item.stdout is None
            &&& item.stderr is None
            &&& item.aggregated_output is None
            &&& item.exit_code is None
            &&& item.duration is None
            &&& item.formatted_output is None
        }),
{
}

/// A command that ended is the one that its event describes, with all that it came to, and ended
/// as the event says.
pub proof fn law_ended_command(event: ExecCommandEndEventView)
    ensures
        ({
            let item = CommandExecutionItemView::from_end(event);
            &&& item.id == event.call_id
            &&& item.process_id == event.process_id
            &&& item.command == event.command
            &&& item.cwd == event.cwd
            &&& item.parsed_cmd == event.parsed_cmd
            &&& item.source == event.source
            &&& item.interaction_input == event.interaction_input
            &&& item.stdout == Some(event.stdout)
            &&& item.stderr == Some(event.stderr)
            &&& item.aggregated_output == Some(event.aggregated_output)
            &&& item.exit_code == Some(event.exit_code)
            &&& item.duration == Some(event.duration)
            &&& item.formatted_output == Some(event.formatted_output)
            &&& item.status == CommandExecutionStatus::Completed <==> event.status
                == ExecCommandStatus::Completed
            &&& item.status == CommandExecutionStatus::Failed <==> event.status
                == ExecCommandStatus::Failed
            &&& item.status == CommandExecutionStatus::Declined <==> event.status
                == ExecCommandStatus::Declined
        }),
{
}

/// The begin event of a command describes the command, its turn and when it began, however far
/// the command has come.
pub proof fn law_command_begin_event(
    item: CommandExecutionItemView,
    turn_id: Seq<char>,
    started_at_ms: i64,
)
    ensures
        item.legacy_begin_event(turn_id, started_at_ms) matches EventMsgView::ExecCommandBegin(
            event,
        ) && {
            &&& event.call_id == item.id
            &&& event.process_id == item.process_id
            &&& event.turn_id == turn_id
            &&& event.started_at_ms == started_at_ms
            &&& event.command == item.command
            &&& event.cwd == item.cwd
            &&& event.parsed_cmd == item.parsed_cmd
            &&& event.source == item.source
            &&& event.interaction_input == item.interaction_input
        },
{
}

/// A command has an end event exactly where it is no longer in progress. The event describes the
/// command, its turn, when and how it ended and all that it came to; what is not known of that is
/// empty, or zero.
pub proof fn law_command_end_event(
    item: CommandExecutionItemView,
    turn_id: Seq<char>,
    completed_at_ms: i64,
)
    ensures
        item.legacy_end_event(turn_id, completed_at_ms) is None <==> item.status
            == CommandExecutionStatus::InProgress,
        item.legacy_end_event(turn_id, completed_at_ms) is Some ==> (item.legacy_end_event(
            turn_id,
            completed_at_ms,
        ) matches Some(EventMsgView::ExecCommandEnd(event)) && {
            &&& event.call_id == item.id
            &&& event.process_id == item.process_id
            &&& event.turn_id == turn_id
            &&& event.completed_at_ms == completed_at_ms
            &&& event.command == item.command
            &&& event.cwd == item.cwd
            &&& event.parsed_cmd == item.parsed_cmd
            &&& event.source == item.source
            &&& event.interaction_input == item.interaction_input
            &&& item.stdout == Some(event.stdout) || (item.stdout is None && event.stdout.len()
                == 0)
            &&& item.stderr == Some(event.stderr) || (item.stderr is None && event.stderr.len()
                == 0)
            &&& item.aggregated_output == Some(event.aggregated_output) || (
            item.aggregated_output is None && event.aggregated_output.len() == 0)
            &&& item.exit_code == Some(event.exit_code) || (item.exit_code is None
                && event.exit_code == 0)
            &&& item.duration == Some(event.duration) || (item.duration is None && event.duration
                == 0)
            &&& item.formatted_output == Some(event.formatted_output) || (
            item.formatted_output is None && event.formatted_output.len() == 0)
            &&& event.status == ExecCommandStatus::Completed <==> item.status
                == CommandExecutionStatus::Completed
            &&& event.status == ExecCommandStatus::Failed <==> item.status
                == CommandExecutionStatus::Failed
            &&& event.status == ExecCommandStatus::Declined <==> item.status
                == CommandExecutionStatus::Declined
        }),
{
}

/// A call of a dynamic tool that was requested is the one that its request describes, is in
/// progress, and has come to nothing yet.
pub proof fn law_requested_call(event: DynamicToolCallRequestView)
    ensures
        ({
            let item = DynamicToolCallItemView::from_request(event);
            &&& item.id == event.call_id
            &&& item.namespace == event.namespace
            &&& item.tool == event.tool
            &&& item.arguments == event.arguments
            &&& item.status == DynamicToolCallStatus::InProgress
            &&& item.content_items is None
            &&& item.success is None
            &&& item.error is None
            &&& item.duration is None
        }),
{
}

/// A call of a dynamic tool that was answered is the one that its response describes, with all
/// that the response holds. It completed where the response is a success, and failed where it is
/// not.
pub proof fn law_answered_call(event: DynamicToolCallResponseEventView)
    ensures
        ({
            let item = DynamicToolCallItemView::from_response(event);
            &&& item.id == event.call_id
            &&& item.namespace == event.namespace
            &&& item.tool == event.tool
            &&& item.arguments == event.arguments
            &&& item.status == DynamicToolCallStatus::Completed <==> event.success
            &&& item.status == DynamicToolCallStatus::Failed <==> !event.success
            &&& item.content_items == Some(event.content_items)
            &&& item.success == Some(event.success)
            &&& item.error == event.error
            &&& item.duration == Some(event.duration)
        }),
{
}

/// The request event of a call of a dynamic tool describes the call, its turn and when it began.
pub proof fn law_request_event(
    item: DynamicToolCallItemView,
    turn_id: Seq<char>,
    started_at_ms: i64,
)
    ensures
        item.legacy_request_event(turn_id, started_at_ms) matches
            EventMsgView::DynamicToolCallRequest(event) && {
            &&& event.call_id == item.id
            &&& event.turn_id == turn_id
            &&& event.started_at_ms == started_at_ms
            &&& event.namespace == item.namespace
            &&& event.tool == item.tool
            &&& event.arguments == item.arguments
        },
{
}

/// A call of a dynamic tool has a response event exactly where it is no longer in progress. The
/// event is a success only where the call is known to be one; what is not known of what the call
/// came to is empty, or zero.
pub proof fn law_response_event(
    item: DynamicToolCallItemView,
    turn_id: Seq<char>,
    completed_at_ms: i64,
)
    ensures
        item.legacy_response_event(turn_id, completed_at_ms) is None <==> item.status
            == DynamicToolCallStatus::InProgress,
        item.legacy_response_event(turn_id, completed_at_ms) is Some ==> (
        item.legacy_response_event(turn_id, completed_at_ms) matches Some(
            EventMsgView::DynamicToolCallResponse(event),
        ) && {
            &&& event.call_id == item.id
            &&& event.turn_id == turn_id
            &&& event.completed_at_ms == completed_at_ms
            &&& event.namespace == item.namespace
            &&& event.tool == item.tool
            &&& event.arguments == item.arguments
            &&& item.content_items == Some(event.content_items) || (item.content_items is None
                && event.content_items.len() == 0)
            &&& event.success <==> (item.success is Some && item.success->0)
            &&& event.error == item.error
            &&& item.duration == Some(event.duration) || (item.duration is None && event.duration
                == 0)
        }),
{
}

/// The begin event of a call of a tool of a server names the server, the tool and the arguments,
/// which are left out exactly where they are `null`, and all else that the call holds.
pub proof fn law_mcp_begin_event(item: McpToolCallItemView)
    ensures
        item.legacy_begin_event() matches EventMsgView::McpToolCallBegin(event) && {
            &&& event.call_id == item.id
            &&& event.invocation.server == item.server
            &&& event.invocation.tool == item.tool
            &&& event.invocation.arguments is None <==> item.arguments is Null
            &&& event.invocation.arguments is Some ==> event.invocation.arguments == Some(
                item.arguments,
            )
            &&& event.connector_id == item.connector_id
            &&& event.mcp_app_resource_uri == item.mcp_app_resource_uri
            &&& event.link_id == item.link_id
            &&& event.plugin_id == item.plugin_id
        },
{
}

/// A call of a tool of a server has an end event exactly where it came to a result or an error and
/// its duration is known. Where it has both a result and an error the result is reported.
pub proof fn law_mcp_end_event(item: McpToolCallItemView)
    ensures
        item.legacy_end_event() is Some <==> item.duration is Some && (item.result is Some
            || item.error is Some),
        item.legacy_end_event() is Some ==> (item.legacy_end_event() matches Some(
            EventMsgView::McpToolCallEnd(event),
        ) && {
            &&& event.call_id == item.id
            &&& event.invocation.server == item.server
            &&& event.invocation.tool == item.tool
            &&& event.invocation.arguments is None <==> item.arguments is Null
            &&& event.invocation.arguments is Some ==> event.invocation.arguments == Some(
                item.arguments,
            )
            &&& event.mcp_app_resource_uri == item.mcp_app_resource_uri
            &&& event.connector_id == item.connector_id
            &&& event.link_id == item.link_id
            &&& event.plugin_id == item.plugin_id
            &&& item.duration == Some(event.duration)
            &&& item.result matches Some(result) ==> event.result is Ok && event.result->Ok_0
                == result
            &&& item.result is None ==> event.result is Err && event.result->Err_0
                == item.error->0.message
        }),
{
}

/// The activity of a sub-agent keeps what its event says, and its event says what it holds and
/// when it happened.
pub proof fn law_sub_agent_activity(
    event: SubAgentActivityEventView,
    item: SubAgentActivityItemView,
    occurred_at_ms: i64,
)
    ensures
        ({
            let kept = SubAgentActivityItemView::from_event(event);
            &&& kept.id == event.event_id
            &&& kept.kind == event.kind
            &&& kept.agent_thread_id == event.agent_thread_id
            &&& kept.agent_path == event.agent_path
        }),
        item.legacy_event(occurred_at_ms) matches EventMsgView::SubAgentActivity(reported) && {
            &&& reported.event_id == item.id
            &&& reported.occurred_at_ms == occurred_at_ms
            &&& reported.agent_thread_id == item.agent_thread_id
            &&& reported.agent_path == item.agent_path
            &&& reported.kind == item.kind
        },
{
}

/// A web search, a look at an image and the generation of an image are each reported by an event
/// that says all that the item holds.
pub proof fn law_single_events(
    search: WebSearchItemView,
    look: ImageViewItemView,
    generation: ImageGenerationItemView,
)
    ensures
        search.legacy_event() matches EventMsgView::WebSearchEnd(event) && {
            &&& event.call_id == search.id
            &&& event.query == search.query
            &&& event.action == search.action
        },
        look.legacy_event() matches EventMsgView::ViewImageToolCall(event) && {
            &&& event.call_id == look.id
            &&& event.path == look.path
        },
        generation.legacy_event() matches EventMsgView::ImageGenerationEnd(event) && {
            &&& event.call_id == generation.id
            &&& event.status == generation.status
            &&& event.revised_prompt == generation.revised_prompt
            &&& event.result == generation.result
            &&& event.saved_path == generation.saved_path
        },
{
}

/// The begin event of changes to files says that they were approved automatically only where that
/// is known.
pub proof fn law_file_change_begin_event(item: FileChangeItemView, turn_id: Seq<char>)
    ensures
        item.legacy_begin_event(turn_id) matches EventMsgView::PatchApplyBegin(event) && {
            &&& event.call_id == item.id
            &&& event.turn_id == turn_id
            &&& event.auto_approved <==> (item.auto_approved is Some && item.auto_approved->0)
            &&& event.changes == item.changes
        },
{
}

/// Changes to files have an end event exactly where their status is known. The event is a success
/// exactly where they were completed; output that is not known is empty.
pub proof fn law_file_change_end_event(item: FileChangeItemView, turn_id: Seq<char>)
    ensures
        item.legacy_end_event(turn_id) is Some <==> item.status is Some,
        item.legacy_end_event(turn_id) is Some ==> (item.legacy_end_event(turn_id) matches Some(
            EventMsgView::PatchApplyEnd(event),
        ) && {
            &&& event.call_id == item.id
            &&& event.turn_id == turn_id
            &&& item.stdout == Some(event.stdout) || (item.stdout is None && event.stdout.len()
                == 0)
            &&& item.stderr == Some(event.stderr) || (item.stderr is None && event.stderr.len()
                == 0)
            &&& event.success <==> item.status == Some(PatchApplyStatus::Completed)
            &&& event.changes == item.changes
            &&& item.status == Some(event.status)
        }),
{
}

/// An item of a turn is reported by the events of what it is; items that are reported while they
/// happen, or not at all, give none once they are complete.
pub proof fn law_turn_items_report_what_they_are(item: TurnItemView, show_raw: bool)
    ensures
        item matches TurnItemView::AgentMessage(message) ==> item.legacy_events(show_raw)
            == message.legacy_events(),
        item matches TurnItemView::Reasoning(reasoning) ==> item.legacy_events(show_raw)
            == reasoning.legacy_events(show_raw),
        item matches TurnItemView::UserMessage(message) ==> {
            &&& item.legacy_events(show_raw).len() == 1
            &&& item.legacy_events(show_raw)[0] == message.legacy_event()
        },
        item matches TurnItemView::WebSearch(search) ==> {
            &&& item.legacy_events(show_raw).len() == 1
            &&& item.legacy_events(show_raw)[0] == search.legacy_event()
        },
        item matches TurnItemView::ImageView(look) ==> {
            &&& item.legacy_events(show_raw).len() == 1
            &&& item.legacy_events(show_raw)[0] == look.legacy_event()
        },
        item matches TurnItemView::ImageGeneration(generation) ==> {
            &&& item.legacy_events(show_raw).len() == 1
            &&& item.legacy_events(show_raw)[0] == generation.legacy_event()
        },
        item matches TurnItemView::FileChange(change) ==> {
            &&& item.legacy_events(show_raw).len() == if change.status is Some {
                1int
            } else {
                0int
            }
            &&& change.status is Some ==> change.legacy_end_event(seq![]) == Some(
                item.legacy_events(show_raw)[0],
            )
        },
        item matches TurnItemView::McpToolCall(call) ==> {
            &&& item.legacy_events(show_raw).len() == if call.duration is Some && (
            call.result is Some || call.error is Some) {
                1int
            } else {
                0int
            }
            &&& item.legacy_events(show_raw).len() == 1 ==> call.legacy_end_event() == Some(
                item.legacy_events(show_raw)[0],
            )
        },
        item is ContextCompaction ==> {
            &&& item.legacy_events(show_raw).len() == 1
            &&& item.legacy_events(show_raw)[0] is ContextCompacted
        },
        item is HookPrompt || item is Plan || item is CommandExecution || item is DynamicToolCall
            || item is CollabAgentToolCall || item is SubAgentActivity || item is Sleep
            ==> item.legacy_events(show_raw).len() == 0,
{
}

/// The identity of an item of a turn is that of what it is.
pub proof fn law_turn_items_keep_their_identity(item: TurnItemView)
    ensures
        item matches TurnItemView::UserMessage(value) ==> item.id() == value.id,
        item matches TurnItemView::HookPrompt(value) ==> item.id() == value.id,
        item matches TurnItemView::AgentMessage(value) ==> item.id() == value.id,
        item matches TurnItemView::Plan(value) ==> item.id() == value.id,
        item matches TurnItemView::Reasoning(value) ==> item.id() == value.id,
        item matches TurnItemView::CommandExecution(value) ==> item.id() == value.id,
        item matches TurnItemView::DynamicToolCall(value) ==> item.id() == value.id,
        item matches TurnItemView::CollabAgentToolCall(value) ==> item.id() == value.id,
        item matches TurnItemView::SubAgentActivity(value) ==> item.id() == value.id,
        item matches TurnItemView::WebSearch(value) ==> item.id() == value.id,
        item matches TurnItemView::ImageView(value) ==> item.id() == value.id,
        item matches TurnItemView::Sleep(value) ==> item.id() == value.id,
        item matches TurnItemView::ImageGeneration(value) ==> item.id() == value.id,
        item matches TurnItemView::FileChange(value) ==> item.id() == value.id,
        item matches TurnItemView::McpToolCall(value) ==> item.id() == value.id,
        item matches TurnItemView::ContextCompaction(value) ==> item.id() == value.id,
{
}

} // verus!
