//! Calls of dynamic tools, and of tools of MCP servers.

use vstd::prelude::*;

use crate::duplicate::Duplicate;
use crate::duration::Duration;
use crate::json::{JsonValue, JsonValueView};
use crate::models::{
    CallToolResult, CallToolResultView, DynamicToolCallOutputContentItem,
    DynamicToolCallOutputContentItemView,
};
use crate::protocol::{
    DynamicToolCallRequest, DynamicToolCallRequestView, DynamicToolCallResponseEvent,
    DynamicToolCallResponseEventView, EventMsg, EventMsgView, McpInvocation, McpInvocationView,
    McpToolCallBeginEvent, McpToolCallBeginEventView, McpToolCallEndEvent,
    McpToolCallEndEventView,
};

verus! {

/// How far a call of a dynamic tool has come.
#[derive(Clone, Copy, Debug, PartialEq, Eq, Structural)]
pub enum DynamicToolCallStatus {
    InProgress,
    Completed,
    Failed,
}

/// A call of a dynamic tool.
#[derive(Clone, Debug, PartialEq)]
pub struct DynamicToolCallItem {
    pub id: String,
    pub namespace: Option<String>,
    pub tool: String,
    pub arguments: JsonValue,
    pub status: DynamicToolCallStatus,
    pub content_items: Option<Vec<DynamicToolCallOutputContentItem>>,
    pub success: Option<bool>,
    pub error: Option<String>,
    pub duration: Option<Duration>,
}

/// What `DynamicToolCallItem` stands for.
#[verifier::ext_equal]
pub struct DynamicToolCallItemView {
    pub id: Seq<char>,
    pub namespace: Option<Seq<char>>,
    pub tool: Seq<char>,
    pub arguments: JsonValueView,
    pub status: DynamicToolCallStatus,
    pub content_items: Option<Seq<DynamicToolCallOutputContentItemView>>,
    pub success: Option<bool>,
    pub error: Option<Seq<char>>,
    pub duration: Option<nat>,
}

impl DeepView for DynamicToolCallItem {
    type V = DynamicToolCallItemView;

    open spec fn deep_view(&self) -> DynamicToolCallItemView {
        DynamicToolCallItemView {
            id: self.id@,
            namespace: self.namespace.deep_view(),
            tool: self.tool@,
            arguments: self.arguments.deep_view(),
            status: self.status,
            content_items: self.content_items.deep_view(),
            success: self.success.deep_view(),
            error: self.error.deep_view(),
            duration: self.duration.deep_view(),
        }
    }
}

/// How far a call of a tool of an MCP server has come.
#[derive(Clone, Copy, Debug, PartialEq, Eq, Structural)]
pub enum McpToolCallStatus {
    InProgress,
    Completed,
    Failed,
}

/// Why a call of a tool of an MCP server failed.
#[derive(Clone, Debug, PartialEq, Eq)]
pub struct McpToolCallError {
    pub message: String,
}

/// What `McpToolCallError` stands for.
#[verifier::ext_equal]
pub struct McpToolCallErrorView {
    pub message: Seq<char>,
}

impl DeepView for McpToolCallError {
    type V = McpToolCallErrorView;

    open spec fn deep_view(&self) -> McpToolCallErrorView {
        McpToolCallErrorView {
            message: self.message@,
        }
    }
}

/// A call of a tool of an MCP server.
#[derive(Clone, Debug, PartialEq)]
pub struct McpToolCallItem {
    pub id: String,
    pub server: String,
    pub tool: String,
    pub arguments: JsonValue,
    pub connector_id: Option<String>,
    pub mcp_app_resource_uri: Option<String>,
    pub link_id: Option<String>,
    pub plugin_id: Option<String>,
    pub status: McpToolCallStatus,
    pub result: Option<CallToolResult>,
    pub error: Option<McpToolCallError>,
    pub duration: Option<Duration>,
}

/// What `McpToolCallItem` stands for.
#[verifier::ext_equal]
pub struct McpToolCallItemView {
    pub id: Seq<char>,
    pub server: Seq<char>,
    pub tool: Seq<char>,
    pub arguments: JsonValueView,
    pub connector_id: Option<Seq<char>>,
    pub mcp_app_resource_uri: Option<Seq<char>>,
    pub link_id: Option<Seq<char>>,
    pub plugin_id: Option<Seq<char>>,
    pub status: McpToolCallStatus,
    pub result: Option<CallToolResultView>,
    pub error: Option<McpToolCallErrorView>,
    pub duration: Option<nat>,
}

impl DeepView for McpToolCallItem {
    type V = McpToolCallItemView;

    open spec fn deep_view(&self) -> McpToolCallItemView {
        McpToolCallItemView {
            id: self.id@,
            server: self.server@,
            tool: self.tool@,
            arguments: self.arguments.deep_view(),
            connector_id: self.connector_id.deep_view(),
            mcp_app_resource_uri: self.mcp_app_resource_uri.deep_view(),
            link_id: self.link_id.deep_view(),
            plugin_id: self.plugin_id.deep_view(),
            status: self.status,
            result: self.result.deep_view(),
            error: self.error.deep_view(),
            duration: self.duration.deep_view(),
        }
    }
}

impl DynamicToolCallItemView {
    /// The call that a request stands for.
    pub open spec fn from_request(event: DynamicToolCallRequestView) -> DynamicToolCallItemView {
        DynamicToolCallItemView {
            id: event.call_id,
            namespace: event.namespace,
            tool: event.tool,
            arguments: event.arguments,
            status: DynamicToolCallStatus::InProgress,
            content_items: None,
            success: None,
            error: None,
            duration: None,
        }
    }

    /// The call that a response stands for.
    pub open spec fn from_response(event: DynamicToolCallResponseEventView) ->
        DynamicToolCallItemView {
        DynamicToolCallItemView {
            id: event.call_id,
            namespace: event.namespace,
            tool: event.tool,
            arguments: event.arguments,
            status: if event.success {
                DynamicToolCallStatus::Completed
            } else {
                DynamicToolCallStatus::Failed
            },
            content_items: Some(event.content_items),
            success: Some(event.success),
            error: event.error,
            duration: Some(event.duration),
        }
    }

    /// The event that requests the call.
    pub open spec fn legacy_request_event(self, turn_id: Seq<char>, started_at_ms: i64) ->
        EventMsgView {
        EventMsgView::DynamicToolCallRequest(
            DynamicToolCallRequestView {
                call_id: self.id,
                turn_id,
                started_at_ms,
                namespace: self.namespace,
                tool: self.tool,
                arguments: self.arguments,
            },
        )
    }

    /// The event that reports what the call gave back. There is none while it is in progress.
    pub open spec fn legacy_response_event(self, turn_id: Seq<char>, completed_at_ms: i64) ->
        Option<EventMsgView> {
        if self.status == DynamicToolCallStatus::InProgress {
            None
        } else {
            Some(
                EventMsgView::DynamicToolCallResponse(
                    DynamicToolCallResponseEventView {
                        call_id: self.id,
                        turn_id,
                        completed_at_ms,
                        namespace: self.namespace,
                        tool: self.tool,
                        arguments: self.arguments,
                        content_items: match self.content_items {
                            Some(items) => items,
                            None => seq![],
                        },
                        success: self.success == Some(true),
                        error: self.error,
                        duration: match self.duration {
                            Some(span) => span,
                            None => 0,
                        },
                    },
                ),
            )
        }
    }
}

impl DynamicToolCallItem {
    /// Makes the call that a request stands for.
    pub fn from_dynamic_tool_call_request(event: DynamicToolCallRequest) -> (item:
        DynamicToolCallItem)
        ensures
            item.deep_view() == DynamicToolCallItemView::from_request(event.deep_view()),
    {
        DynamicToolCallItem {
            id: event.call_id,
            namespace: event.namespace,
            tool: event.tool,
            arguments: event.arguments,
            status: DynamicToolCallStatus::InProgress,
            content_items: None,
            success: None,
            error: None,
            duration: None,
        }
    }

    /// Makes the call that a response stands for.
    pub fn from_dynamic_tool_call_response(event: DynamicToolCallResponseEvent) -> (item:
        DynamicToolCallItem)
        ensures
            item.deep_view() == DynamicToolCallItemView::from_response(event.deep_view()),
    {
        DynamicToolCallItem {
            id: event.call_id,
            namespace: event.namespace,
            tool: event.tool,
            arguments: event.arguments,
            status: if event.success {
                DynamicToolCallStatus::Completed
            } else {
                DynamicToolCallStatus::Failed
            },
            content_items: Some(event.content_items),
            success: Some(event.success),
            error: event.error,
            duration: Some(event.duration),
        }
    }

    /// Makes the event that requests the call.
    pub fn as_legacy_request_event(&self, turn_id: String, started_at_ms: i64) -> (event: EventMsg)
        ensures
            event.deep_view() == self.deep_view().legacy_request_event(turn_id@, started_at_ms),
    {
        EventMsg::DynamicToolCallRequest(
            DynamicToolCallRequest {
                call_id: self.id.clone(),
                turn_id,
                started_at_ms,
                namespace: self.namespace.duplicate(),
                tool: self.tool.clone(),
                arguments: self.arguments.duplicate(),
            },
        )
    }

    /// Makes the event that reports what the call gave back, unless it is in progress.
    pub fn as_legacy_response_event(&self, turn_id: String, completed_at_ms: i64) -> (event: Option<
        EventMsg,
    >)
        ensures
            event.deep_view() == self.deep_view().legacy_response_event(turn_id@, completed_at_ms),
    {
        if self.status == DynamicToolCallStatus::InProgress {
            return None;
        }
        let content_items: Vec<DynamicToolCallOutputContentItem> = match &self.content_items {
            Some(items) => items.duplicate(),
            None => Vec::new(),
        };
        let duration = match self.duration {
            Some(span) => span,
            None => Duration::zero(),
        };
        let event = DynamicToolCallResponseEvent {
            call_id: self.id.clone(),
            turn_id,
            completed_at_ms,
            namespace: self.namespace.duplicate(),
            tool: self.tool.clone(),
            arguments: self.arguments.duplicate(),
            content_items,
            success: match self.success {
                Some(success) => success,
                None => false,
            },
            error: self.error.duplicate(),
            duration,
        };
        assert(self.content_items is None ==> event.deep_view().content_items =~= seq![]);
        Some(EventMsg::DynamicToolCallResponse(event))
    }
}

/// The event that requests a call is given back by the call that it stands for, and that call has
/// no response.
pub proof fn law_request_event_round_trip(
    event: DynamicToolCallRequestView,
    turn_id: Seq<char>,
    completed_at_ms: i64,
)
    ensures
        DynamicToolCallItemView::from_request(event).legacy_request_event(
            event.turn_id,
            event.started_at_ms,
        ) == EventMsgView::DynamicToolCallRequest(event),
        DynamicToolCallItemView::from_request(event).legacy_response_event(turn_id, completed_at_ms)
            is None,
{
}

/// The event that reports what a call gave back is given back by the call that it stands for.
pub proof fn law_response_event_round_trip(event: DynamicToolCallResponseEventView)
    ensures
        DynamicToolCallItemView::from_response(event).legacy_response_event(
            event.turn_id,
            event.completed_at_ms,
        ) == Some(EventMsgView::DynamicToolCallResponse(event)),
{
}

impl McpToolCallItemView {
    /// What is called. Arguments that are `null` are no arguments.
    pub open spec fn invocation(self) -> McpInvocationView {
        McpInvocationView {
            server: self.server,
            tool: self.tool,
            arguments: self.arguments.non_null(),
        }
    }

    /// The event that announces the call.
    pub open spec fn legacy_begin_event(self) -> EventMsgView {
        EventMsgView::McpToolCallBegin(
            McpToolCallBeginEventView {
                call_id: self.id,
                invocation: self.invocation(),
                connector_id: self.connector_id,
                mcp_app_resource_uri: self.mcp_app_resource_uri,
                link_id: self.link_id,
                plugin_id: self.plugin_id,
            },
        )
    }

    /// What the call came to: its result, or else its error.
    pub open spec fn end_result(self) -> Option<Result<CallToolResultView, Seq<char>>> {
        match (self.result, self.error) {
            (Some(result), _) => Some(Ok(result)),
            (None, Some(error)) => Some(Err(error.message)),
            (None, None) => None,
        }
    }

    /// The event that reports what the call came to. There is none before it came to something,
    /// or where it is not known how long it took.
    pub open spec fn legacy_end_event(self) -> Option<EventMsgView> {
        match (self.end_result(), self.duration) {
            (Some(result), Some(duration)) => Some(
                EventMsgView::McpToolCallEnd(
                    McpToolCallEndEventView {
                        call_id: self.id,
                        invocation: self.invocation(),
                        mcp_app_resource_uri: self.mcp_app_resource_uri,
                        connector_id: self.connector_id,
                        link_id: self.link_id,
                        plugin_id: self.plugin_id,
                        duration,
                        result,
                    },
                ),
            ),
            _ => None,
        }
    }
}

impl McpToolCallItem {
    fn invocation(&self) -> (invocation: McpInvocation)
        ensures
            invocation.deep_view() == self.deep_view().invocation(),
    {
        McpInvocation {
            server: self.server.clone(),
            tool: self.tool.clone(),
            arguments: self.arguments.non_null(),
        }
    }

    /// Makes the event that announces the call.
    pub fn as_legacy_begin_event(&self) -> (event: EventMsg)
        ensures
            event.deep_view() == self.deep_view().legacy_begin_event(),
    {
        EventMsg::McpToolCallBegin(
            McpToolCallBeginEvent {
                call_id: self.id.clone(),
                invocation: self.invocation(),
                connector_id: self.connector_id.duplicate(),
                mcp_app_resource_uri: self.mcp_app_resource_uri.duplicate(),
                link_id: self.link_id.duplicate(),
                plugin_id: self.plugin_id.duplicate(),
            },
        )
    }

    /// Makes the event that reports what the call came to, if it came to something and it is known
    /// how long it took.
    pub fn as_legacy_end_event(&self) -> (event: Option<EventMsg>)
        ensures
            event.deep_view() == self.deep_view().legacy_end_event(),
    {
        let result: Result<CallToolResult, String> = match (&self.result, &self.error) {
            (Some(result), _) => Ok(result.duplicate()),
            (None, Some(error)) => Err(error.message.clone()),
            (None, None) => return None,
        };
        let duration = match self.duration {
            Some(duration) => duration,
            None => return None,
        };
        Some(
            EventMsg::McpToolCallEnd(
                McpToolCallEndEvent {
                    call_id: self.id.clone(),
                    invocation: self.invocation(),
                    mcp_app_resource_uri: self.mcp_app_resource_uri.duplicate(),
                    connector_id: self.connector_id.duplicate(),
                    link_id: self.link_id.duplicate(),
                    plugin_id: self.plugin_id.duplicate(),
                    duration,
                    result,
                },
            ),
        )
    }
}

} // verus!
