//! Calls of the tools by which agents work together.

use std::collections::HashMap;

use agent_turns::items::collab::collab_tool_call_status;
use agent_turns::items::{
    CollabAgentTool, CollabAgentToolCallItem, CollabAgentToolCallStatus, TurnItem,
};
use agent_turns::models::ReasoningEffort;
use agent_turns::protocol::{
    AgentStatus, CollabAgentInteractionBeginEvent, CollabAgentInteractionEndEvent, CollabAgentRef,
    CollabAgentSpawnBeginEvent, CollabAgentSpawnEndEvent, CollabAgentStatusEntry,
    CollabCloseBeginEvent, CollabCloseEndEvent, CollabResumeBeginEvent, CollabResumeEndEvent,
    CollabWaitingBeginEvent, CollabWaitingEndEvent, EventMsg,
};

fn agent(thread_id: u128) -> CollabAgentRef {
    CollabAgentRef {
        thread_id,
        agent_nickname: Some(format!("nick-{thread_id}")),
        agent_role: None,
    }
}

fn errored() -> AgentStatus {
    AgentStatus::Errored("broken".to_string())
}

#[test]
fn the_status_of_a_call() {
    let completed = CollabAgentToolCallStatus::Completed;
    let failed = CollabAgentToolCallStatus::Failed;
    for status in [
        AgentStatus::PendingInit,
        AgentStatus::Running,
        AgentStatus::Interrupted,
        AgentStatus::Completed(None),
        AgentStatus::Shutdown,
    ] {
        assert_eq!(collab_tool_call_status(&status, true), completed);
        assert_eq!(collab_tool_call_status(&status, false), failed);
    }
    for status in [errored(), AgentStatus::NotFound] {
        assert_eq!(collab_tool_call_status(&status, true), failed);
        assert_eq!(collab_tool_call_status(&status, false), failed);
    }
}

#[test]
fn spawn_events_are_given_back() {
    let begin = CollabAgentSpawnBeginEvent {
        call_id: "call".to_string(),
        started_at_ms: 1,
        sender_thread_id: 10,
        prompt: "work".to_string(),
        model: "model".to_string(),
        reasoning_effort: ReasoningEffort::High,
    };
    let item = CollabAgentToolCallItem::from_collab_agent_spawn_begin_event(begin.clone());
    assert_eq!(item.tool, CollabAgentTool::SpawnAgent);
    assert_eq!(item.status, CollabAgentToolCallStatus::InProgress);
    assert!(item.receiver_thread_ids.is_empty());
    assert_eq!(
        item.as_legacy_begin_event(1),
        Some(EventMsg::CollabAgentSpawnBegin(begin))
    );
    assert_eq!(item.as_legacy_end_event(2), None);

    let end = CollabAgentSpawnEndEvent {
        call_id: "call".to_string(),
        completed_at_ms: 2,
        sender_thread_id: 10,
        new_thread_id: Some(20),
        new_agent_nickname: Some("nick".to_string()),
        new_agent_role: Some("role".to_string()),
        prompt: "work".to_string(),
        model: "model".to_string(),
        reasoning_effort: ReasoningEffort::Low,
        status: AgentStatus::Running,
    };
    let item = CollabAgentToolCallItem::from_collab_agent_spawn_end_event(end.clone());
    assert_eq!(item.status, CollabAgentToolCallStatus::Completed);
    assert_eq!(item.receiver_thread_ids, [20]);
    assert_eq!(item.agent_status(20), AgentStatus::Running);
    assert_eq!(
        item.as_legacy_end_event(2),
        Some(EventMsg::CollabAgentSpawnEnd(end.clone()))
    );

    let nobody = CollabAgentSpawnEndEvent {
        new_thread_id: None,
        ..end
    };
    let item = CollabAgentToolCallItem::from_collab_agent_spawn_end_event(nobody.clone());
    assert_eq!(item.status, CollabAgentToolCallStatus::Failed);
    assert!(item.receiver_agents.is_empty());
    assert!(item.agents_states.is_empty());
    assert_eq!(
        item.as_legacy_end_event(2),
        Some(EventMsg::CollabAgentSpawnEnd(CollabAgentSpawnEndEvent {
            new_agent_nickname: None,
            new_agent_role: None,
            status: AgentStatus::NotFound,
            ..nobody
        }))
    );
}

#[test]
fn interaction_events_are_given_back() {
    let begin = CollabAgentInteractionBeginEvent {
        call_id: "call".to_string(),
        started_at_ms: 1,
        sender_thread_id: 10,
        receiver_thread_id: 20,
        prompt: "more".to_string(),
    };
    let item = CollabAgentToolCallItem::from_collab_agent_interaction_begin_event(begin.clone());
    assert_eq!(
        item.as_legacy_begin_event(1),
        Some(EventMsg::CollabAgentInteractionBegin(begin))
    );
    assert_eq!(item.as_legacy_end_event(2), None);

    for (status, expected) in [
        (AgentStatus::Running, CollabAgentToolCallStatus::Completed),
        (errored(), CollabAgentToolCallStatus::Failed),
    ] {
        let end = CollabAgentInteractionEndEvent {
            call_id: "call".to_string(),
            completed_at_ms: 2,
            sender_thread_id: 10,
            receiver_thread_id: 20,
            receiver_agent_nickname: Some("nick".to_string()),
            receiver_agent_role: None,
            prompt: "more".to_string(),
            status,
        };
        let item = CollabAgentToolCallItem::from_collab_agent_interaction_end_event(end.clone());
        assert_eq!(item.status, expected);
        assert_eq!(
            item.as_legacy_end_event(2),
            Some(EventMsg::CollabAgentInteractionEnd(end))
        );
    }
}

#[test]
fn waiting_events_are_given_back() {
    let begin = CollabWaitingBeginEvent {
        started_at_ms: 1,
        sender_thread_id: 10,
        receiver_thread_ids: vec![20, 21],
        receiver_agents: vec![agent(20)],
        call_id: "call".to_string(),
    };
    let item = CollabAgentToolCallItem::from_collab_waiting_begin_event(begin.clone());
    assert_eq!(
        item.as_legacy_begin_event(1),
        Some(EventMsg::CollabWaitingBegin(begin))
    );
    assert_eq!(item.as_legacy_end_event(2), None);

    let entry = |thread_id: u128, status: AgentStatus| CollabAgentStatusEntry {
        thread_id,
        agent_nickname: Some(format!("nick-{thread_id}")),
        agent_role: None,
        status,
    };
    let end = |first: AgentStatus| CollabWaitingEndEvent {
        sender_thread_id: 10,
        call_id: "call".to_string(),
        completed_at_ms: 2,
        agent_statuses: vec![entry(20, first.clone()), entry(21, AgentStatus::Shutdown)],
        statuses: HashMap::from([(20, first), (21, AgentStatus::Shutdown)]),
    };
    for (status, expected) in [
        (AgentStatus::Completed(None), CollabAgentToolCallStatus::Completed),
        (errored(), CollabAgentToolCallStatus::Failed),
        (AgentStatus::NotFound, CollabAgentToolCallStatus::Failed),
    ] {
        let item = CollabAgentToolCallItem::from_collab_waiting_end_event(end(status.clone()));
        assert_eq!(item.status, expected);
        let mut ids = item.receiver_thread_ids.clone();
        ids.sort_unstable();
        assert_eq!(ids, [20, 21]);
        assert_eq!(item.receiver_agents, [agent(20), agent(21)]);
        assert_eq!(
            item.as_legacy_end_event(2),
            Some(EventMsg::CollabWaitingEnd(end(status)))
        );
    }
}

#[test]
fn close_events_are_given_back() {
    let begin = CollabCloseBeginEvent {
        call_id: "call".to_string(),
        started_at_ms: 1,
        sender_thread_id: 10,
        receiver_thread_id: 20,
    };
    let item = CollabAgentToolCallItem::from_collab_close_begin_event(begin.clone());
    assert_eq!(
        item.as_legacy_begin_event(1),
        Some(EventMsg::CollabCloseBegin(begin))
    );
    assert_eq!(item.as_legacy_end_event(2), None);

    let end = CollabCloseEndEvent {
        call_id: "call".to_string(),
        completed_at_ms: 2,
        sender_thread_id: 10,
        receiver_thread_id: 20,
        receiver_agent_nickname: None,
        receiver_agent_role: Some("role".to_string()),
        status: AgentStatus::Shutdown,
    };
    let item = CollabAgentToolCallItem::from_collab_close_end_event(end.clone());
    assert_eq!(item.status, CollabAgentToolCallStatus::Completed);
    assert_eq!(
        item.as_legacy_end_event(2),
        Some(EventMsg::CollabCloseEnd(end))
    );
}

#[test]
fn resume_events_are_given_back() {
    let begin = CollabResumeBeginEvent {
        call_id: "call".to_string(),
        started_at_ms: 1,
        sender_thread_id: 10,
        receiver_thread_id: 20,
        receiver_agent_nickname: Some("nick".to_string()),
        receiver_agent_role: Some("role".to_string()),
    };
    let item = CollabAgentToolCallItem::from_collab_resume_begin_event(begin.clone());
    assert_eq!(
        item.as_legacy_begin_event(1),
        Some(EventMsg::CollabResumeBegin(begin))
    );
    assert_eq!(item.as_legacy_end_event(2), None);

    let end = CollabResumeEndEvent {
        call_id: "call".to_string(),
        completed_at_ms: 2,
        sender_thread_id: 10,
        receiver_thread_id: 20,
        receiver_agent_nickname: None,
        receiver_agent_role: None,
        status: AgentStatus::NotFound,
    };
    let item = CollabAgentToolCallItem::from_collab_resume_end_event(end.clone());
    assert_eq!(item.status, CollabAgentToolCallStatus::Failed);
    assert_eq!(
        item.as_legacy_end_event(2),
        Some(EventMsg::CollabResumeEnd(end))
    );
}

fn bare(tool: CollabAgentTool) -> CollabAgentToolCallItem {
    CollabAgentToolCallItem {
        id: "call".to_string(),
        tool,
        status: CollabAgentToolCallStatus::Completed,
        sender_thread_id: 10,
        receiver_thread_ids: Vec::new(),
        receiver_agents: Vec::new(),
        prompt: None,
        model: None,
        reasoning_effort: None,
        agents_states: HashMap::new(),
    }
}

#[test]
fn a_call_without_a_receiver_may_have_no_events() {
    for tool in [
        CollabAgentTool::SendInput,
        CollabAgentTool::ResumeAgent,
        CollabAgentTool::CloseAgent,
    ] {
        assert_eq!(bare(tool).as_legacy_begin_event(1), None);
        assert_eq!(bare(tool).as_legacy_end_event(2), None);
    }
    assert!(bare(CollabAgentTool::Wait).as_legacy_begin_event(1).is_some());
    assert!(bare(CollabAgentTool::Wait).as_legacy_end_event(2).is_some());
    let Some(EventMsg::CollabAgentSpawnBegin(event)) =
        bare(CollabAgentTool::SpawnAgent).as_legacy_begin_event(1)
    else {
        panic!("expected an event");
    };
    assert_eq!(event.prompt, "");
    assert_eq!(event.model, "");
    assert_eq!(event.reasoning_effort, ReasoningEffort::Medium);
}

#[test]
fn agents_are_found_by_their_thread() {
    let mut item = bare(CollabAgentTool::Wait);
    item.receiver_agents = vec![agent(1), agent(2)];
    item.agents_states = HashMap::from([(2, AgentStatus::Interrupted)]);
    assert_eq!(item.receiver_agent(2), Some(agent(2)));
    assert_eq!(item.receiver_agent(3), None);
    assert_eq!(item.agent_status(2), AgentStatus::Interrupted);
    assert_eq!(item.agent_status(1), AgentStatus::NotFound);
    assert_eq!(item.receiver_agent(1), Some(agent(1)));
}

#[test]
fn a_collaboration_call_is_not_reported_as_an_item() {
    let item = TurnItem::CollabAgentToolCall(bare(CollabAgentTool::Wait));
    assert_eq!(item.id(), "call");
    assert!(item.as_legacy_events(true).is_empty());
}
