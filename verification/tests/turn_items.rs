//! The items of turns and the events that report them.

use std::collections::HashMap;
use std::path::PathBuf;

use agent_turns::duration::Duration;
use agent_turns::items::message::trim_trailing_default_image_details;
use agent_turns::items::{
    AgentMessageContent, AgentMessageItem, CommandExecutionItem, CommandExecutionStatus,
    ContextCompactionItem, DynamicToolCallItem, DynamicToolCallStatus, FileChangeItem,
    HookPromptItem, ImageGenerationItem, ImageViewItem, McpToolCallError, McpToolCallItem,
    McpToolCallStatus, PlanItem, ReasoningItem, SleepItem, SubAgentActivityItem, TurnItem,
    UserMessageItem, WebSearchItem,
};
use agent_turns::json::JsonValue;
use agent_turns::models::{
    CallToolResult, DynamicToolCallOutputContentItem, FileChange, ImageDetail, MemoryCitation,
    MessagePhase, ParsedCommand, WebSearchAction,
};
use agent_turns::paths::{AbsolutePathBuf, AgentPath, PathUri};
use agent_turns::protocol::{
    AgentMessageEvent, AgentReasoningEvent, AgentReasoningRawContentEvent, ContextCompactedEvent,
    DynamicToolCallRequest, DynamicToolCallResponseEvent, EventMsg, ExecCommandBeginEvent,
    ExecCommandEndEvent, ExecCommandSource, ExecCommandStatus, ImageGenerationEndEvent,
    McpInvocation, McpToolCallBeginEvent, McpToolCallEndEvent, PatchApplyBeginEvent,
    PatchApplyEndEvent, PatchApplyStatus, SubAgentActivityEvent, SubAgentActivityKind,
    UserMessageEvent, ViewImageToolCallEvent, WebSearchEndEvent,
};
use agent_turns::user_input::{ByteRange, TextElement, UserInput};

fn text(text: &str, elements: Vec<TextElement>) -> UserInput {
    UserInput::Text {
        text: text.to_string(),
        text_elements: elements,
    }
}

fn element(start: usize, end: usize, placeholder: Option<&str>) -> TextElement {
    TextElement::new(
        ByteRange { start, end },
        placeholder.map(|text| text.to_string()),
    )
}

fn image(url: &str, detail: Option<ImageDetail>) -> UserInput {
    UserInput::Image {
        image_url: url.to_string(),
        detail,
    }
}

fn local_image(path: &str, detail: Option<ImageDetail>) -> UserInput {
    UserInput::LocalImage {
        path: PathBuf::from(path),
        detail,
    }
}

fn user_message() -> UserMessageItem {
    UserMessageItem {
        id: "user-1".to_string(),
        client_id: Some("client-1".to_string()),
        content: vec![
            text("Grüß ", vec![element(0, 6, None)]),
            image("https://example.test/a.png", None),
            local_image("/tmp/a.png", Some(ImageDetail::Low)),
            text("@file please", vec![element(0, 5, Some("[file]"))]),
            UserInput::Skill {
                name: "skill".to_string(),
                path: PathBuf::from("/skills/skill"),
            },
            image("https://example.test/b.png", Some(ImageDetail::High)),
            image("https://example.test/c.png", None),
            local_image("/tmp/b.png", None),
            UserInput::Mention {
                name: "app".to_string(),
                path: "app://app".to_string(),
            },
        ],
    }
}

#[test]
fn a_user_message_flattens_its_texts() {
    let item = user_message();
    assert_eq!(item.message(), "Grüß @file please");
    assert!(item.text_ranges_fit());
    assert_eq!(
        item.text_elements(),
        vec![
            element(0, 6, Some("Grüß")),
            element(7, 12, Some("[file]")),
        ]
    );
    assert_eq!(
        item.image_urls(),
        [
            "https://example.test/a.png",
            "https://example.test/b.png",
            "https://example.test/c.png"
        ]
    );
    assert_eq!(item.image_details(), [None, Some(ImageDetail::High)]);
    assert_eq!(
        item.local_image_paths(),
        [PathBuf::from("/tmp/a.png"), PathBuf::from("/tmp/b.png")]
    );
    assert_eq!(item.local_image_details(), [Some(ImageDetail::Low)]);
}

#[test]
fn a_user_message_is_reported() {
    let item = user_message();
    assert_eq!(
        item.as_legacy_event(),
        EventMsg::UserMessage(UserMessageEvent {
            client_id: Some("client-1".to_string()),
            message: "Grüß @file please".to_string(),
            images: Some(vec![
                "https://example.test/a.png".to_string(),
                "https://example.test/b.png".to_string(),
                "https://example.test/c.png".to_string(),
            ]),
            image_details: vec![None, Some(ImageDetail::High)],
            local_images: vec![PathBuf::from("/tmp/a.png"), PathBuf::from("/tmp/b.png")],
            local_image_details: vec![Some(ImageDetail::Low)],
            text_elements: vec![
                element(0, 6, Some("Grüß")),
                element(7, 12, Some("[file]")),
            ],
        })
    );
}

#[test]
fn elements_show_the_text_in_their_range() {
    let item = UserMessageItem {
        id: "user-1".to_string(),
        client_id: None,
        content: vec![
            text("ab", Vec::new()),
            text(
                "äöü",
                vec![
                    element(0, 2, None),
                    element(2, 6, None),
                    element(0, 1, None),
                    element(4, 2, None),
                    element(0, 9, None),
                    element(6, 6, None),
                ],
            ),
        ],
    };
    assert_eq!(
        item.text_elements(),
        vec![
            element(2, 4, Some("ä")),
            element(4, 8, Some("öü")),
            element(2, 3, None),
            element(6, 4, None),
            element(2, 11, None),
            element(8, 8, Some("")),
        ]
    );
    // The moved ranges show the same texts in the whole message.
    let message = item.message();
    for moved in item.text_elements().iter().take(2) {
        let range = moved.byte_range;
        assert_eq!(
            message.get(range.start..range.end),
            moved.placeholder(&message).as_deref()
        );
    }
}

#[test]
fn ranges_that_cannot_be_moved_are_noticed() {
    let mut item = UserMessageItem {
        id: "user-1".to_string(),
        client_id: None,
        content: vec![text("a", vec![element(usize::MAX, usize::MAX, None)])],
    };
    assert!(item.text_ranges_fit());
    item.content.insert(0, text("b", Vec::new()));
    assert!(!item.text_ranges_fit());
}

#[test]
fn an_empty_message_is_reported_too() {
    let item = UserMessageItem::new(&[]);
    assert_eq!(item.client_id, None);
    assert_eq!(item.id.len(), 36);
    assert_eq!(item.message(), "");
    assert!(item.text_elements().is_empty());
    assert!(item.image_details().is_empty());
    let content = [text("hello", Vec::new())];
    let other = UserMessageItem::new(&content);
    assert_ne!(other.id, item.id);
    assert_eq!(other.content, content);
}

#[test]
fn trailing_default_details_are_dropped() {
    let high = Some(ImageDetail::High);
    assert_eq!(
        trim_trailing_default_image_details(vec![None, high, None, None]),
        [None, high]
    );
    assert!(trim_trailing_default_image_details(vec![None, None]).is_empty());
    assert!(trim_trailing_default_image_details(Vec::new()).is_empty());
    assert_eq!(trim_trailing_default_image_details(vec![high]), [high]);
}

#[test]
fn an_agent_message_is_reported_part_by_part() {
    let content = [
        AgentMessageContent::Text {
            text: "one".to_string(),
        },
        AgentMessageContent::Text {
            text: "two".to_string(),
        },
    ];
    let mut item = AgentMessageItem::new(&content);
    assert_eq!(item.id.len(), 36);
    assert_eq!(item.content, content);
    assert_eq!(item.phase, None);
    assert_eq!(item.memory_citation, None);

    item.phase = Some(MessagePhase::FinalAnswer);
    item.memory_citation = Some(MemoryCitation {
        entries: Vec::new(),
        rollout_ids: vec!["rollout".to_string()],
    });
    let event = |text: &str| {
        EventMsg::AgentMessage(AgentMessageEvent {
            message: text.to_string(),
            phase: Some(MessagePhase::FinalAnswer),
            memory_citation: item.memory_citation.clone(),
        })
    };
    assert_eq!(item.as_legacy_events(), [event("one"), event("two")]);
}

#[test]
fn raw_reasoning_is_reported_on_demand() {
    let item = ReasoningItem {
        id: "reasoning-1".to_string(),
        summary_text: vec!["summary".to_string()],
        raw_content: vec!["raw one".to_string(), "raw two".to_string()],
    };
    let summary = EventMsg::AgentReasoning(AgentReasoningEvent {
        text: "summary".to_string(),
    });
    let raw = |text: &str| {
        EventMsg::AgentReasoningRawContent(AgentReasoningRawContentEvent {
            text: text.to_string(),
        })
    };
    assert_eq!(item.as_legacy_events(false), [summary.clone()]);
    assert_eq!(
        item.as_legacy_events(true),
        [summary, raw("raw one"), raw("raw two")]
    );
}

fn command_begin() -> ExecCommandBeginEvent {
    ExecCommandBeginEvent {
        call_id: "call-1".to_string(),
        process_id: Some("42".to_string()),
        turn_id: "turn-1".to_string(),
        started_at_ms: 1_000,
        command: vec!["ls".to_string(), "-l".to_string()],
        cwd: PathUri {
            uri: "file:///work".to_string(),
        },
        parsed_cmd: vec![ParsedCommand::ListFiles {
            cmd: "ls -l".to_string(),
            path: None,
        }],
        source: ExecCommandSource::Agent,
        interaction_input: None,
    }
}

fn command_end(status: ExecCommandStatus) -> ExecCommandEndEvent {
    ExecCommandEndEvent {
        call_id: "call-1".to_string(),
        process_id: Some("42".to_string()),
        turn_id: "turn-1".to_string(),
        completed_at_ms: 2_000,
        command: vec!["ls".to_string(), "-l".to_string()],
        cwd: PathUri {
            uri: "file:///work".to_string(),
        },
        parsed_cmd: vec![ParsedCommand::Read {
            cmd: "cat".to_string(),
            name: "file".to_string(),
            path: PathBuf::from("/work/file"),
        }],
        source: ExecCommandSource::UserShell,
        interaction_input: Some("y".to_string()),
        stdout: "out".to_string(),
        stderr: "err".to_string(),
        aggregated_output: "outerr".to_string(),
        exit_code: 3,
        duration: Duration::from_millis(1_500),
        formatted_output: "formatted".to_string(),
        status,
    }
}

#[test]
fn command_events_are_given_back() {
    let item = CommandExecutionItem::from_exec_command_begin_event(command_begin());
    assert_eq!(item.status, CommandExecutionStatus::InProgress);
    assert_eq!(
        item.as_legacy_begin_event("turn-1".to_string(), 1_000),
        EventMsg::ExecCommandBegin(command_begin())
    );
    assert_eq!(item.as_legacy_end_event("turn-1".to_string(), 2_000), None);

    for (status, expected) in [
        (ExecCommandStatus::Completed, CommandExecutionStatus::Completed),
        (ExecCommandStatus::Failed, CommandExecutionStatus::Failed),
        (ExecCommandStatus::Declined, CommandExecutionStatus::Declined),
    ] {
        assert_eq!(CommandExecutionStatus::from(status), expected);
        let item = CommandExecutionItem::from_exec_command_end_event(command_end(status));
        assert_eq!(item.status, expected);
        assert_eq!(
            item.as_legacy_end_event("turn-1".to_string(), 2_000),
            Some(EventMsg::ExecCommandEnd(command_end(status)))
        );
    }
}

#[test]
fn what_a_command_does_not_know_is_empty() {
    let mut item = CommandExecutionItem::from_exec_command_begin_event(command_begin());
    item.status = CommandExecutionStatus::Failed;
    let Some(EventMsg::ExecCommandEnd(event)) =
        item.as_legacy_end_event("turn-2".to_string(), 5)
    else {
        panic!("expected an event");
    };
    assert_eq!(event.turn_id, "turn-2");
    assert_eq!(event.stdout, "");
    assert_eq!(event.stderr, "");
    assert_eq!(event.aggregated_output, "");
    assert_eq!(event.formatted_output, "");
    assert_eq!(event.exit_code, 0);
    assert!(event.duration.is_zero());
}

fn tool_response(success: bool) -> DynamicToolCallResponseEvent {
    DynamicToolCallResponseEvent {
        call_id: "call-1".to_string(),
        turn_id: "turn-1".to_string(),
        completed_at_ms: 2_000,
        namespace: Some("space".to_string()),
        tool: "tool".to_string(),
        arguments: JsonValue::Document("{\"a\":1}".to_string()),
        content_items: vec![DynamicToolCallOutputContentItem::InputText {
            text: "done".to_string(),
        }],
        success,
        error: None,
        duration: Duration::from_secs(2),
    }
}

#[test]
fn tool_call_events_are_given_back() {
    let request = DynamicToolCallRequest {
        call_id: "call-1".to_string(),
        turn_id: "turn-1".to_string(),
        started_at_ms: 1_000,
        namespace: None,
        tool: "tool".to_string(),
        arguments: JsonValue::Null,
    };
    let mut item = DynamicToolCallItem::from_dynamic_tool_call_request(request.clone());
    assert_eq!(item.status, DynamicToolCallStatus::InProgress);
    assert_eq!(
        item.as_legacy_request_event("turn-1".to_string(), 1_000),
        EventMsg::DynamicToolCallRequest(request)
    );
    assert_eq!(item.as_legacy_response_event("turn-1".to_string(), 2), None);
    item.status = DynamicToolCallStatus::Failed;
    let Some(EventMsg::DynamicToolCallResponse(event)) =
        item.as_legacy_response_event("turn-1".to_string(), 2)
    else {
        panic!("expected an event");
    };
    assert!(!event.success);
    assert!(event.content_items.is_empty());
    assert!(event.duration.is_zero());

    for (success, status) in [
        (true, DynamicToolCallStatus::Completed),
        (false, DynamicToolCallStatus::Failed),
    ] {
        let item = DynamicToolCallItem::from_dynamic_tool_call_response(tool_response(success));
        assert_eq!(item.status, status);
        assert_eq!(
            item.as_legacy_response_event("turn-1".to_string(), 2_000),
            Some(EventMsg::DynamicToolCallResponse(tool_response(success)))
        );
    }
}

fn mcp_call() -> McpToolCallItem {
    McpToolCallItem {
        id: "call-1".to_string(),
        server: "server".to_string(),
        tool: "tool".to_string(),
        arguments: JsonValue::Document("{}".to_string()),
        connector_id: Some("connector".to_string()),
        mcp_app_resource_uri: Some("ui://app".to_string()),
        link_id: Some("link".to_string()),
        plugin_id: Some("plugin".to_string()),
        status: McpToolCallStatus::Completed,
        result: Some(CallToolResult {
            content: vec![JsonValue::Document("\"x\"".to_string())],
            structured_content: None,
            is_error: Some(false),
            meta: None,
        }),
        error: Some(McpToolCallError {
            message: "failed".to_string(),
        }),
        duration: Some(Duration::from_secs(1)),
    }
}

#[test]
fn a_server_tool_call_is_reported() {
    let mut item = mcp_call();
    let invocation = McpInvocation {
        server: "server".to_string(),
        tool: "tool".to_string(),
        arguments: Some(JsonValue::Document("{}".to_string())),
    };
    assert_eq!(
        item.as_legacy_begin_event(),
        EventMsg::McpToolCallBegin(McpToolCallBeginEvent {
            call_id: "call-1".to_string(),
            invocation: invocation.clone(),
            connector_id: Some("connector".to_string()),
            mcp_app_resource_uri: Some("ui://app".to_string()),
            link_id: Some("link".to_string()),
            plugin_id: Some("plugin".to_string()),
        })
    );
    let end = |result| {
        Some(EventMsg::McpToolCallEnd(McpToolCallEndEvent {
            call_id: "call-1".to_string(),
            invocation: invocation.clone(),
            mcp_app_resource_uri: Some("ui://app".to_string()),
            connector_id: Some("connector".to_string()),
            link_id: Some("link".to_string()),
            plugin_id: Some("plugin".to_string()),
            duration: Duration::from_secs(1),
            result,
        }))
    };
    let result = item.result.clone().expect("result");
    assert_eq!(item.as_legacy_end_event(), end(Ok(result)));
    item.result = None;
    assert_eq!(item.as_legacy_end_event(), end(Err("failed".to_string())));
    item.error = None;
    assert_eq!(item.as_legacy_end_event(), None);

    let mut item = mcp_call();
    item.duration = None;
    assert_eq!(item.as_legacy_end_event(), None);

    item.arguments = JsonValue::Null;
    let EventMsg::McpToolCallBegin(event) = item.as_legacy_begin_event() else {
        panic!("expected an event");
    };
    assert_eq!(event.invocation.arguments, None);
}

fn file_change(status: Option<PatchApplyStatus>) -> FileChangeItem {
    let mut changes = HashMap::new();
    changes.insert(
        PathBuf::from("/work/file"),
        FileChange::Add {
            content: "new".to_string(),
        },
    );
    FileChangeItem {
        id: "patch-1".to_string(),
        changes,
        status,
        auto_approved: None,
        stdout: Some("out".to_string()),
        stderr: None,
    }
}

#[test]
fn a_file_change_is_reported() {
    let mut item = file_change(None);
    assert_eq!(
        item.as_legacy_begin_event("turn-1".to_string()),
        EventMsg::PatchApplyBegin(PatchApplyBeginEvent {
            call_id: "patch-1".to_string(),
            turn_id: "turn-1".to_string(),
            auto_approved: false,
            changes: item.changes.clone(),
        })
    );
    item.auto_approved = Some(true);
    let EventMsg::PatchApplyBegin(event) = item.as_legacy_begin_event(String::new()) else {
        panic!("expected an event");
    };
    assert!(event.auto_approved);
    assert_eq!(item.as_legacy_end_event("turn-1".to_string()), None);

    for status in [
        PatchApplyStatus::Completed,
        PatchApplyStatus::Failed,
        PatchApplyStatus::Declined,
    ] {
        let item = file_change(Some(status));
        assert_eq!(
            item.as_legacy_end_event("turn-1".to_string()),
            Some(EventMsg::PatchApplyEnd(PatchApplyEndEvent {
                call_id: "patch-1".to_string(),
                turn_id: "turn-1".to_string(),
                stdout: "out".to_string(),
                stderr: String::new(),
                success: status == PatchApplyStatus::Completed,
                changes: item.changes.clone(),
                status,
            }))
        );
    }
}

#[test]
fn the_activity_of_a_sub_agent_is_given_back() {
    let event = SubAgentActivityEvent {
        event_id: "event-1".to_string(),
        occurred_at_ms: 7,
        agent_thread_id: 9,
        agent_path: AgentPath {
            path: "/root/worker".to_string(),
        },
        kind: SubAgentActivityKind::Interacted,
    };
    let item = SubAgentActivityItem::from_sub_agent_activity_event(event.clone());
    assert_eq!(item.id, "event-1");
    assert_eq!(item.as_legacy_event(7), EventMsg::SubAgentActivity(event));
}

fn all_items() -> Vec<TurnItem> {
    vec![
        TurnItem::UserMessage(user_message()),
        TurnItem::HookPrompt(HookPromptItem {
            id: "hook-1".to_string(),
            fragments: Vec::new(),
        }),
        TurnItem::AgentMessage(AgentMessageItem {
            id: "agent-1".to_string(),
            content: vec![AgentMessageContent::Text {
                text: "hello".to_string(),
            }],
            phase: None,
            memory_citation: None,
        }),
        TurnItem::Plan(PlanItem {
            id: "plan-1".to_string(),
            text: "plan".to_string(),
        }),
        TurnItem::Reasoning(ReasoningItem {
            id: "reasoning-1".to_string(),
            summary_text: vec!["summary".to_string()],
            raw_content: vec!["raw".to_string()],
        }),
        TurnItem::CommandExecution(CommandExecutionItem::from_exec_command_end_event(
            command_end(ExecCommandStatus::Completed),
        )),
        TurnItem::DynamicToolCall(DynamicToolCallItem::from_dynamic_tool_call_response(
            tool_response(true),
        )),
        TurnItem::SubAgentActivity(SubAgentActivityItem {
            id: "event-1".to_string(),
            kind: SubAgentActivityKind::Started,
            agent_thread_id: 1,
            agent_path: AgentPath {
                path: "/root/worker".to_string(),
            },
        }),
        TurnItem::WebSearch(WebSearchItem {
            id: "search-1".to_string(),
            query: "query".to_string(),
            action: WebSearchAction::OpenPage { url: None },
        }),
        TurnItem::ImageView(ImageViewItem {
            id: "view-1".to_string(),
            path: PathUri {
                uri: "file:///image.png".to_string(),
            },
        }),
        TurnItem::Sleep(SleepItem {
            id: "sleep-1".to_string(),
            duration_ms: 10,
        }),
        TurnItem::ImageGeneration(ImageGenerationItem {
            id: "image-1".to_string(),
            status: "completed".to_string(),
            revised_prompt: Some("prompt".to_string()),
            result: "data".to_string(),
            saved_path: Some(AbsolutePathBuf {
                path: PathBuf::from("/tmp/image.png"),
            }),
        }),
        TurnItem::FileChange(file_change(Some(PatchApplyStatus::Completed))),
        TurnItem::FileChange(file_change(None)),
        TurnItem::McpToolCall(mcp_call()),
        TurnItem::ContextCompaction(ContextCompactionItem {
            id: "compaction-1".to_string(),
        }),
    ]
}

#[test]
fn every_item_has_its_identity() {
    let ids: Vec<String> = all_items().iter().map(TurnItem::id).collect();
    assert_eq!(
        ids,
        [
            "user-1",
            "hook-1",
            "agent-1",
            "plan-1",
            "reasoning-1",
            "call-1",
            "call-1",
            "event-1",
            "search-1",
            "view-1",
            "sleep-1",
            "image-1",
            "patch-1",
            "patch-1",
            "call-1",
            "compaction-1",
        ]
    );
}

#[test]
fn complete_items_are_reported() {
    let counts = |show_raw: bool| -> Vec<usize> {
        all_items()
            .iter()
            .map(|item| item.as_legacy_events(show_raw).len())
            .collect()
    };
    assert_eq!(
        counts(false),
        [1, 0, 1, 0, 1, 0, 0, 0, 1, 1, 0, 1, 1, 0, 1, 1]
    );
    assert_eq!(
        counts(true),
        [1, 0, 1, 0, 2, 0, 0, 0, 1, 1, 0, 1, 1, 0, 1, 1]
    );

    let items = all_items();
    assert_eq!(
        items[8].as_legacy_events(false),
        [EventMsg::WebSearchEnd(WebSearchEndEvent {
            call_id: "search-1".to_string(),
            query: "query".to_string(),
            action: WebSearchAction::OpenPage { url: None },
        })]
    );
    assert_eq!(
        items[9].as_legacy_events(false),
        [EventMsg::ViewImageToolCall(ViewImageToolCallEvent {
            call_id: "view-1".to_string(),
            path: PathUri {
                uri: "file:///image.png".to_string(),
            },
        })]
    );
    assert_eq!(
        items[11].as_legacy_events(false),
        [EventMsg::ImageGenerationEnd(ImageGenerationEndEvent {
            call_id: "image-1".to_string(),
            status: "completed".to_string(),
            revised_prompt: Some("prompt".to_string()),
            result: "data".to_string(),
            saved_path: Some(AbsolutePathBuf {
                path: PathBuf::from("/tmp/image.png"),
            }),
        })]
    );
    let events = items[12].as_legacy_events(false);
    let EventMsg::PatchApplyEnd(event) = &events[0] else {
        panic!("expected an event");
    };
    assert_eq!(event.turn_id, "");
    assert_eq!(
        items[15].as_legacy_events(false),
        [EventMsg::ContextCompacted(ContextCompactedEvent {})]
    );
}

#[test]
fn a_compaction_makes_up_its_identity() {
    let first = ContextCompactionItem::new();
    let second = ContextCompactionItem::default();
    assert_eq!(first.id.len(), 36);
    assert_eq!(second.id.len(), 36);
    assert_ne!(first.id, second.id);
}
