//! Calls of the tools by which agents work together.

use std::collections::HashMap;

use vstd::prelude::*;

use crate::duplicate::Duplicate;
use crate::models::{ReasoningEffort, ThreadId};
use crate::protocol::{
    AgentStatus, AgentStatusView, CollabAgentInteractionBeginEvent,
    CollabAgentInteractionBeginEventView, CollabAgentInteractionEndEvent,
    CollabAgentInteractionEndEventView, CollabAgentRef, CollabAgentRefView,
    CollabAgentSpawnBeginEvent, CollabAgentSpawnBeginEventView, CollabAgentSpawnEndEvent,
    CollabAgentSpawnEndEventView, CollabAgentStatusEntry, CollabAgentStatusEntryView,
    CollabCloseBeginEvent, CollabCloseBeginEventView, CollabCloseEndEvent, CollabCloseEndEventView,
    CollabResumeBeginEvent, CollabResumeBeginEventView, CollabResumeEndEvent,
    CollabResumeEndEventView, CollabWaitingBeginEvent, CollabWaitingBeginEventView,
    CollabWaitingEndEvent, CollabWaitingEndEventView, EventMsg, EventMsgView,
};
use crate::text::copy_or_empty;

verus! {

broadcast use vstd::std_specs::hash::group_hash_axioms;

/// A tool by which agents work together.
#[derive(Clone, Copy, Debug, PartialEq, Eq, Structural)]
pub enum CollabAgentTool {
    SpawnAgent,
    SendInput,
    ResumeAgent,
    Wait,
    CloseAgent,
}

/// How far a call has come.
#[derive(Clone, Copy, Debug, PartialEq, Eq, Structural)]
pub enum CollabAgentToolCallStatus {
    InProgress,
    Completed,
    Failed,
}

/// A call of a tool by which agents work together.
#[derive(Clone, Debug, PartialEq)]
pub struct CollabAgentToolCallItem {
    pub id: String,
    pub tool: CollabAgentTool,
    pub status: CollabAgentToolCallStatus,
    pub sender_thread_id: ThreadId,
    pub receiver_thread_ids: Vec<ThreadId>,
    pub receiver_agents: Vec<CollabAgentRef>,
    pub prompt: Option<String>,
    pub model: Option<String>,
    pub reasoning_effort: Option<ReasoningEffort>,
    pub agents_states: HashMap<ThreadId, AgentStatus>,
}

/// What `CollabAgentToolCallItem` stands for.
#[verifier::ext_equal]
pub struct CollabAgentToolCallItemView {
    pub id: Seq<char>,
    pub tool: CollabAgentTool,
    pub status: CollabAgentToolCallStatus,
    pub sender_thread_id: ThreadId,
    pub receiver_thread_ids: Seq<ThreadId>,
    pub receiver_agents: Seq<CollabAgentRefView>,
    pub prompt: Option<Seq<char>>,
    pub model: Option<Seq<char>>,
    pub reasoning_effort: Option<ReasoningEffort>,
    pub agents_states: Map<ThreadId, AgentStatusView>,
}

impl DeepView for CollabAgentToolCallItem {
    type V = CollabAgentToolCallItemView;

    open spec fn deep_view(&self) -> CollabAgentToolCallItemView {
        CollabAgentToolCallItemView {
            id: self.id@,
            tool: self.tool,
            status: self.status,
            sender_thread_id: self.sender_thread_id,
            receiver_thread_ids: self.receiver_thread_ids@,
            receiver_agents: self.receiver_agents.deep_view(),
            prompt: self.prompt.deep_view(),
            model: self.model.deep_view(),
            reasoning_effort: self.reasoning_effort.deep_view(),
            agents_states: self.agents_states@.map_values(|value: AgentStatus| value.deep_view()),
        }
    }
}

impl AgentStatusView {
    /// The agent failed, or there is none.
    pub open spec fn is_failure(self) -> bool {
        self is Errored || self is NotFound
    }
}

/// The status of a call that an agent with this status answers.
pub open spec fn call_status(status: AgentStatusView, has_receiver: bool) ->
    CollabAgentToolCallStatus {
    if status.is_failure() || !has_receiver {
        CollabAgentToolCallStatus::Failed
    } else {
        CollabAgentToolCallStatus::Completed
    }
}

/// Tells the status of a call that an agent with this status answers.
pub fn collab_tool_call_status(status: &AgentStatus, has_receiver: bool) -> (r:
    CollabAgentToolCallStatus)
    ensures
        r == call_status(status.deep_view(), has_receiver),
{
    match status {
        AgentStatus::Errored(_) => CollabAgentToolCallStatus::Failed,
        AgentStatus::NotFound => CollabAgentToolCallStatus::Failed,
        _ => if has_receiver {
            CollabAgentToolCallStatus::Completed
        } else {
            CollabAgentToolCallStatus::Failed
        },
    }
}

/// The first of the agents that runs in the thread.
pub open spec fn agent_in_thread(agents: Seq<CollabAgentRefView>, thread_id: ThreadId) -> Option<
    CollabAgentRefView,
>
    decreases agents.len(),
{
    if agents.len() == 0 {
        None
    } else if agents[0].thread_id == thread_id {
        Some(agents[0])
    } else {
        agent_in_thread(agents.drop_first(), thread_id)
    }
}

/// The nickname of an agent, if there is one and it has one.
pub open spec fn nickname_of(agent: Option<CollabAgentRefView>) -> Option<Seq<char>> {
    match agent {
        Some(found) => found.agent_nickname,
        None => None,
    }
}

/// The role of an agent, if there is one and it has one.
pub open spec fn role_of(agent: Option<CollabAgentRefView>) -> Option<Seq<char>> {
    match agent {
        Some(found) => found.agent_role,
        None => None,
    }
}

/// A reasoning effort, or the default one.
pub open spec fn effort_or_default(effort: Option<ReasoningEffort>) -> ReasoningEffort {
    match effort {
        Some(value) => value,
        None => ReasoningEffort::Medium,
    }
}

fn effort_of(effort: Option<ReasoningEffort>) -> (r: ReasoningEffort)
    ensures
        r == effort_or_default(effort),
{
    match effort {
        Some(value) => value,
        None => ReasoningEffort::default(),
    }
}

fn nickname(agent: &Option<CollabAgentRef>) -> (copy: Option<String>)
    ensures
        copy.deep_view() == nickname_of(agent.deep_view()),
{
    match agent {
        Some(found) => found.agent_nickname.duplicate(),
        None => None,
    }
}

fn role(agent: &Option<CollabAgentRef>) -> (copy: Option<String>)
    ensures
        copy.deep_view() == role_of(agent.deep_view()),
{
    match agent {
        Some(found) => found.agent_role.duplicate(),
        None => None,
    }
}

/// The statuses of agents by their threads, without what holds them.
pub open spec fn status_views(statuses: Map<ThreadId, AgentStatus>) -> Map<
    ThreadId,
    AgentStatusView,
> {
    statuses.map_values(|value: AgentStatus| value.deep_view())
}

fn single_status(thread_id: ThreadId, status: AgentStatus) -> (statuses: HashMap<
    ThreadId,
    AgentStatus,
>)
    ensures
        status_views(statuses@) == map![thread_id => status.deep_view()],
{
    let mut statuses: HashMap<ThreadId, AgentStatus> = HashMap::new();
    let _ = statuses.insert(thread_id, status);
    assert(status_views(statuses@) =~= map![thread_id => status.deep_view()]);
    statuses
}

fn no_statuses() -> (statuses: HashMap<ThreadId, AgentStatus>)
    ensures
        status_views(statuses@) == Map::<ThreadId, AgentStatusView>::empty(),
{
    let statuses: HashMap<ThreadId, AgentStatus> = HashMap::new();
    assert(status_views(statuses@) =~= Map::<ThreadId, AgentStatusView>::empty());
    statuses
}

impl CollabAgentToolCallItemView {
    /// The first thread that the call is directed to.
    pub open spec fn receiver(self) -> Option<ThreadId> {
        if self.receiver_thread_ids.len() == 0 {
            None
        } else {
            Some(self.receiver_thread_ids[0])
        }
    }

    /// The agent that the call knows of in a thread.
    pub open spec fn receiver_agent(self, thread_id: ThreadId) -> Option<CollabAgentRefView> {
        agent_in_thread(self.receiver_agents, thread_id)
    }

    /// The status of the agent in a thread.
    pub open spec fn agent_status(self, thread_id: ThreadId) -> AgentStatusView {
        if self.agents_states.contains_key(thread_id) {
            self.agents_states[thread_id]
        } else {
            AgentStatusView::NotFound
        }
    }

    /// The event that announces the call. A call that is directed to one agent has none where it
    /// has no receiver.
    pub open spec fn legacy_begin_event(self, started_at_ms: i64) -> Option<EventMsgView> {
        match (self.tool, self.receiver()) {
            (CollabAgentTool::SpawnAgent, _) => Some(
                EventMsgView::CollabAgentSpawnBegin(
                    CollabAgentSpawnBeginEventView {
                        call_id: self.id,
                        started_at_ms,
                        sender_thread_id: self.sender_thread_id,
                        prompt: crate::text::text_or_empty(self.prompt),
                        model: crate::text::text_or_empty(self.model),
                        reasoning_effort: effort_or_default(self.reasoning_effort),
                    },
                ),
            ),
            (CollabAgentTool::SendInput, Some(receiver_thread_id)) => Some(
                EventMsgView::CollabAgentInteractionBegin(
                    CollabAgentInteractionBeginEventView {
                        call_id: self.id,
                        started_at_ms,
                        sender_thread_id: self.sender_thread_id,
                        receiver_thread_id,
                        prompt: crate::text::text_or_empty(self.prompt),
                    },
                ),
            ),
            (CollabAgentTool::ResumeAgent, Some(receiver_thread_id)) => Some(
                EventMsgView::CollabResumeBegin(
                    CollabResumeBeginEventView {
                        call_id: self.id,
                        started_at_ms,
                        sender_thread_id: self.sender_thread_id,
                        receiver_thread_id,
                        receiver_agent_nickname: nickname_of(
                            self.receiver_agent(receiver_thread_id),
                        ),
                        receiver_agent_role: role_of(self.receiver_agent(receiver_thread_id)),
                    },
                ),
            ),
            (CollabAgentTool::Wait, _) => Some(
                EventMsgView::CollabWaitingBegin(
                    CollabWaitingBeginEventView {
                        started_at_ms,
                        sender_thread_id: self.sender_thread_id,
                        receiver_thread_ids: self.receiver_thread_ids,
                        receiver_agents: self.receiver_agents,
                        call_id: self.id,
                    },
                ),
            ),
            (CollabAgentTool::CloseAgent, Some(receiver_thread_id)) => Some(
                EventMsgView::CollabCloseBegin(
                    CollabCloseBeginEventView {
                        call_id: self.id,
                        started_at_ms,
                        sender_thread_id: self.sender_thread_id,
                        receiver_thread_id,
                    },
                ),
            ),
            _ => None,
        }
    }

    /// The statuses of the agents that the call knows of.
    pub open spec fn status_entries(self) -> Seq<CollabAgentStatusEntryView> {
        Seq::new(
            self.receiver_agents.len(),
            |i: int|
                CollabAgentStatusEntryView {
                    thread_id: self.receiver_agents[i].thread_id,
                    agent_nickname: self.receiver_agents[i].agent_nickname,
                    agent_role: self.receiver_agents[i].agent_role,
                    status: self.agent_status(self.receiver_agents[i].thread_id),
                },
        )
    }

    /// The event that reports what the call came to. There is none while the call is in progress,
    /// and a call that is directed to one agent has none where it has no receiver.
    pub open spec fn legacy_end_event(self, completed_at_ms: i64) -> Option<EventMsgView> {
        if self.status == CollabAgentToolCallStatus::InProgress {
            None
        } else {
            match (self.tool, self.receiver()) {
                (CollabAgentTool::SpawnAgent, receiver) => {
                    let agent = match receiver {
                        Some(thread_id) => self.receiver_agent(thread_id),
                        None => None,
                    };
                    Some(
                        EventMsgView::CollabAgentSpawnEnd(
                            CollabAgentSpawnEndEventView {
                                call_id: self.id,
                                completed_at_ms,
                                sender_thread_id: self.sender_thread_id,
                                new_thread_id: receiver,
                                new_agent_nickname: nickname_of(agent),
                                new_agent_role: role_of(agent),
                                prompt: crate::text::text_or_empty(self.prompt),
                                model: crate::text::text_or_empty(self.model),
                                reasoning_effort: effort_or_default(self.reasoning_effort),
                                status: match receiver {
                                    Some(thread_id) => self.agent_status(thread_id),
                                    None => AgentStatusView::NotFound,
                                },
                            },
                        ),
                    )
                },
                (CollabAgentTool::SendInput, Some(receiver_thread_id)) => Some(
                    EventMsgView::CollabAgentInteractionEnd(
                        CollabAgentInteractionEndEventView {
                            call_id: self.id,
                            completed_at_ms,
                            sender_thread_id: self.sender_thread_id,
                            receiver_thread_id,
                            receiver_agent_nickname: nickname_of(
                                self.receiver_agent(receiver_thread_id),
                            ),
                            receiver_agent_role: role_of(self.receiver_agent(receiver_thread_id)),
                            prompt: crate::text::text_or_empty(self.prompt),
                            status: self.agent_status(receiver_thread_id),
                        },
                    ),
                ),
                (CollabAgentTool::ResumeAgent, Some(receiver_thread_id)) => Some(
                    EventMsgView::CollabResumeEnd(
                        CollabResumeEndEventView {
                            call_id: self.id,
                            completed_at_ms,
                            sender_thread_id: self.sender_thread_id,
                            receiver_thread_id,
                            receiver_agent_nickname: nickname_of(
                                self.receiver_agent(receiver_thread_id),
                            ),
                            receiver_agent_role: role_of(self.receiver_agent(receiver_thread_id)),
                            status: self.agent_status(receiver_thread_id),
                        },
                    ),
                ),
                (CollabAgentTool::Wait, _) => Some(
                    EventMsgView::CollabWaitingEnd(
                        CollabWaitingEndEventView {
                            sender_thread_id: self.sender_thread_id,
                            call_id: self.id,
                            completed_at_ms,
                            agent_statuses: self.status_entries(),
                            statuses: self.agents_states,
                        },
                    ),
                ),
                (CollabAgentTool::CloseAgent, Some(receiver_thread_id)) => Some(
                    EventMsgView::CollabCloseEnd(
                        CollabCloseEndEventView {
                            call_id: self.id,
                            completed_at_ms,
                            sender_thread_id: self.sender_thread_id,
                            receiver_thread_id,
                            receiver_agent_nickname: nickname_of(
                                self.receiver_agent(receiver_thread_id),
                            ),
                            receiver_agent_role: role_of(self.receiver_agent(receiver_thread_id)),
                            status: self.agent_status(receiver_thread_id),
                        },
                    ),
                ),
                _ => None,
            }
        }
    }
}

impl CollabAgentToolCallItem {
    /// Makes the event that reports what the call came to, if it ended and has one.
    pub fn as_legacy_end_event(&self, completed_at_ms: i64) -> (event: Option<EventMsg>)
        ensures
            event.deep_view() == self.deep_view().legacy_end_event(completed_at_ms),
    {
        if self.status == CollabAgentToolCallStatus::InProgress {
            return None;
        }
        let receiver = self.receiver();
        match self.tool {
            CollabAgentTool::SpawnAgent => Some(self.spawn_end_event(receiver, completed_at_ms)),
            CollabAgentTool::SendInput => {
                let Some(receiver_thread_id) = receiver else {
                    return None;
                };
                let agent = self.receiver_agent(receiver_thread_id);
                Some(
                    EventMsg::CollabAgentInteractionEnd(
                        CollabAgentInteractionEndEvent {
                            call_id: self.id.clone(),
                            completed_at_ms,
                            sender_thread_id: self.sender_thread_id,
                            receiver_thread_id,
                            receiver_agent_nickname: nickname(&agent),
                            receiver_agent_role: role(&agent),
                            prompt: copy_or_empty(&self.prompt),
                            status: self.agent_status(receiver_thread_id),
                        },
                    ),
                )
            },
            CollabAgentTool::ResumeAgent => {
                let Some(receiver_thread_id) = receiver else {
                    return None;
                };
                let agent = self.receiver_agent(receiver_thread_id);
                Some(
                    EventMsg::CollabResumeEnd(
                        CollabResumeEndEvent {
                            call_id: self.id.clone(),
                            completed_at_ms,
                            sender_thread_id: self.sender_thread_id,
                            receiver_thread_id,
                            receiver_agent_nickname: nickname(&agent),
                            receiver_agent_role: role(&agent),
                            status: self.agent_status(receiver_thread_id),
                        },
                    ),
                )
            },
            CollabAgentTool::Wait => Some(
                EventMsg::CollabWaitingEnd(
                    CollabWaitingEndEvent {
                        sender_thread_id: self.sender_thread_id,
                        call_id: self.id.clone(),
                        completed_at_ms,
                        agent_statuses: self.status_entries(),
                        statuses: self.agents_states.clone(),
                    },
                ),
            ),
            CollabAgentTool::CloseAgent => {
                let Some(receiver_thread_id) = receiver else {
                    return None;
                };
                let agent = self.receiver_agent(receiver_thread_id);
                Some(
                    EventMsg::CollabCloseEnd(
                        CollabCloseEndEvent {
                            call_id: self.id.clone(),
                            completed_at_ms,
                            sender_thread_id: self.sender_thread_id,
                            receiver_thread_id,
                            receiver_agent_nickname: nickname(&agent),
                            receiver_agent_role: role(&agent),
                            status: self.agent_status(receiver_thread_id),
                        },
                    ),
                )
            },
        }
    }

    fn spawn_end_event(&self, receiver: Option<ThreadId>, completed_at_ms: i64) -> (event: EventMsg)
        requires
            self.tool == CollabAgentTool::SpawnAgent,
            self.status != CollabAgentToolCallStatus::InProgress,
            receiver == self.deep_view().receiver(),
        ensures
            Some(event.deep_view()) == self.deep_view().legacy_end_event(completed_at_ms),
    {
        let agent = match receiver {
            Some(thread_id) => self.receiver_agent(thread_id),
            None => None,
        };
        let status = match receiver {
            Some(thread_id) => self.agent_status(thread_id),
            None => AgentStatus::NotFound,
        };
        EventMsg::CollabAgentSpawnEnd(
            CollabAgentSpawnEndEvent {
                call_id: self.id.clone(),
                completed_at_ms,
                sender_thread_id: self.sender_thread_id,
                new_thread_id: receiver,
                new_agent_nickname: nickname(&agent),
                new_agent_role: role(&agent),
                prompt: copy_or_empty(&self.prompt),
                model: copy_or_empty(&self.model),
                reasoning_effort: effort_of(self.reasoning_effort),
                status,
            },
        )
    }

    /// Makes the event that announces the call, if it has one.
    pub fn as_legacy_begin_event(&self, started_at_ms: i64) -> (event: Option<EventMsg>)
        ensures
            event.deep_view() == self.deep_view().legacy_begin_event(started_at_ms),
    {
        let receiver = self.receiver();
        match self.tool {
            CollabAgentTool::SpawnAgent => Some(
                EventMsg::CollabAgentSpawnBegin(
                    CollabAgentSpawnBeginEvent {
                        call_id: self.id.clone(),
                        started_at_ms,
                        sender_thread_id: self.sender_thread_id,
                        prompt: copy_or_empty(&self.prompt),
                        model: copy_or_empty(&self.model),
                        reasoning_effort: effort_of(self.reasoning_effort),
                    },
                ),
            ),
            CollabAgentTool::SendInput => {
                let Some(receiver_thread_id) = receiver else {
                    return None;
                };
                Some(
                    EventMsg::CollabAgentInteractionBegin(
                        CollabAgentInteractionBeginEvent {
                            call_id: self.id.clone(),
                            started_at_ms,
                            sender_thread_id: self.sender_thread_id,
                            receiver_thread_id,
                            prompt: copy_or_empty(&self.prompt),
                        },
                    ),
                )
            },
            CollabAgentTool::ResumeAgent => {
                let Some(receiver_thread_id) = receiver else {
                    return None;
                };
                let agent = self.receiver_agent(receiver_thread_id);
                Some(
                    EventMsg::CollabResumeBegin(
                        CollabResumeBeginEvent {
                            call_id: self.id.clone(),
                            started_at_ms,
                            sender_thread_id: self.sender_thread_id,
                            receiver_thread_id,
                            receiver_agent_nickname: nickname(&agent),
                            receiver_agent_role: role(&agent),
                        },
                    ),
                )
            },
            CollabAgentTool::Wait => {
                let event = CollabWaitingBeginEvent {
                    started_at_ms,
                    sender_thread_id: self.sender_thread_id,
                    receiver_thread_ids: self.receiver_thread_ids.clone(),
                    receiver_agents: self.receiver_agents.duplicate(),
                    call_id: self.id.clone(),
                };
                assert(event.deep_view().receiver_thread_ids
                    =~= self.deep_view().receiver_thread_ids);
                Some(EventMsg::CollabWaitingBegin(event))
            },
            CollabAgentTool::CloseAgent => {
                let Some(receiver_thread_id) = receiver else {
                    return None;
                };
                Some(
                    EventMsg::CollabCloseBegin(
                        CollabCloseBeginEvent {
                            call_id: self.id.clone(),
                            started_at_ms,
                            sender_thread_id: self.sender_thread_id,
                            receiver_thread_id,
                        },
                    ),
                )
            },
        }
    }

    fn receiver(&self) -> (receiver: Option<ThreadId>)
        ensures
            receiver == self.deep_view().receiver(),
    {
        if self.receiver_thread_ids.len() == 0 {
            None
        } else {
            Some(self.receiver_thread_ids[0])
        }
    }

    /// Returns the agent that the call knows of in a thread.
    pub fn receiver_agent(&self, thread_id: ThreadId) -> (agent: Option<CollabAgentRef>)
        ensures
            agent.deep_view() == self.deep_view().receiver_agent(thread_id),
    {
        let ghost views = self.receiver_agents.deep_view();
        let mut index: usize = 0;
        assert(views.skip(0) =~= views);
        while index < self.receiver_agents.len()
            invariant
                index <= self.receiver_agents@.len(),
                views == self.receiver_agents.deep_view(),
                agent_in_thread(views, thread_id) == agent_in_thread(
                    views.skip(index as int),
                    thread_id,
                ),
            decreases self.receiver_agents@.len() - index,
        {
            proof {
                assert(views.skip(index as int)[0]
                    == self.receiver_agents@[index as int].deep_view());
                assert(views.skip(index as int).drop_first() =~= views.skip(index + 1));
            }
            if self.receiver_agents[index].thread_id == thread_id {
                return Some(self.receiver_agents[index].duplicate());
            }
            index += 1;
        }
        None
    }

    /// Returns the status of the agent in a thread.
    pub fn agent_status(&self, thread_id: ThreadId) -> (status: AgentStatus)
        ensures
            status.deep_view() == self.deep_view().agent_status(thread_id),
    {
        match self.agents_states.get(&thread_id) {
            Some(status) => status.duplicate(),
            None => AgentStatus::NotFound,
        }
    }

    fn status_entries(&self) -> (entries: Vec<CollabAgentStatusEntry>)
        ensures
            entries.deep_view() == self.deep_view().status_entries(),
    {
        let mut entries: Vec<CollabAgentStatusEntry> = Vec::new();
        let mut index: usize = 0;
        while index < self.receiver_agents.len()
            invariant
                index <= self.receiver_agents@.len(),
                entries@.len() == index,
                forall|i: int|
                    0 <= i < index ==> #[trigger] entries@[i].deep_view()
                        == self.deep_view().status_entries()[i],
            decreases self.receiver_agents@.len() - index,
        {
            let agent = &self.receiver_agents[index];
            entries.push(
                CollabAgentStatusEntry {
                    thread_id: agent.thread_id,
                    agent_nickname: agent.agent_nickname.duplicate(),
                    agent_role: agent.agent_role.duplicate(),
                    status: self.agent_status(agent.thread_id),
                },
            );
            index += 1;
        }
        assert(entries.deep_view() =~= self.deep_view().status_entries());
        entries
    }
}

impl CollabAgentToolCallItemView {
    /// The call that an announced spawn stands for.
    pub open spec fn from_spawn_begin(
        event: CollabAgentSpawnBeginEventView,
    ) -> CollabAgentToolCallItemView {
        CollabAgentToolCallItemView {
            id: event.call_id,
            tool: CollabAgentTool::SpawnAgent,
            status: CollabAgentToolCallStatus::InProgress,
            sender_thread_id: event.sender_thread_id,
            receiver_thread_ids: seq![],
            receiver_agents: seq![],
            prompt: Some(event.prompt),
            model: Some(event.model),
            reasoning_effort: Some(event.reasoning_effort),
            agents_states: Map::empty(),
        }
    }

    /// The call that a reported spawn stands for.
    pub open spec fn from_spawn_end(
        event: CollabAgentSpawnEndEventView,
    ) -> CollabAgentToolCallItemView {
        CollabAgentToolCallItemView {
            id: event.call_id,
            tool: CollabAgentTool::SpawnAgent,
            status: call_status(event.status, event.new_thread_id is Some),
            sender_thread_id: event.sender_thread_id,
            receiver_thread_ids: match event.new_thread_id {
                Some(thread_id) => seq![thread_id],
                None => seq![],
            },
            receiver_agents: match event.new_thread_id {
                Some(thread_id) => seq![
                    CollabAgentRefView {
                        thread_id,
                        agent_nickname: event.new_agent_nickname,
                        agent_role: event.new_agent_role,
                    },
                ],
                None => seq![],
            },
            prompt: Some(event.prompt),
            model: Some(event.model),
            reasoning_effort: Some(event.reasoning_effort),
            agents_states: match event.new_thread_id {
                Some(thread_id) => map![thread_id => event.status],
                None => Map::empty(),
            },
        }
    }

    /// The call that announced input stands for.
    pub open spec fn from_interaction_begin(
        event: CollabAgentInteractionBeginEventView,
    ) -> CollabAgentToolCallItemView {
        CollabAgentToolCallItemView {
            id: event.call_id,
            tool: CollabAgentTool::SendInput,
            status: CollabAgentToolCallStatus::InProgress,
            sender_thread_id: event.sender_thread_id,
            receiver_thread_ids: seq![event.receiver_thread_id],
            receiver_agents: seq![],
            prompt: Some(event.prompt),
            model: None,
            reasoning_effort: None,
            agents_states: Map::empty(),
        }
    }

    /// The call that reported input stands for.
    pub open spec fn from_interaction_end(
        event: CollabAgentInteractionEndEventView,
    ) -> CollabAgentToolCallItemView {
        CollabAgentToolCallItemView {
            id: event.call_id,
            tool: CollabAgentTool::SendInput,
            status: call_status(event.status, true),
            sender_thread_id: event.sender_thread_id,
            receiver_thread_ids: seq![event.receiver_thread_id],
            receiver_agents: seq![
                CollabAgentRefView {
                    thread_id: event.receiver_thread_id,
                    agent_nickname: event.receiver_agent_nickname,
                    agent_role: event.receiver_agent_role,
                },
            ],
            prompt: Some(event.prompt),
            model: None,
            reasoning_effort: None,
            agents_states: map![event.receiver_thread_id => event.status],
        }
    }

    /// The call that an announced wait stands for.
    pub open spec fn from_waiting_begin(
        event: CollabWaitingBeginEventView,
    ) -> CollabAgentToolCallItemView {
        CollabAgentToolCallItemView {
            id: event.call_id,
            tool: CollabAgentTool::Wait,
            status: CollabAgentToolCallStatus::InProgress,
            sender_thread_id: event.sender_thread_id,
            receiver_thread_ids: event.receiver_thread_ids,
            receiver_agents: event.receiver_agents,
            prompt: None,
            model: None,
            reasoning_effort: None,
            agents_states: Map::empty(),
        }
    }

    /// The call that an announced closing stands for.
    pub open spec fn from_close_begin(
        event: CollabCloseBeginEventView,
    ) -> CollabAgentToolCallItemView {
        CollabAgentToolCallItemView {
            id: event.call_id,
            tool: CollabAgentTool::CloseAgent,
            status: CollabAgentToolCallStatus::InProgress,
            sender_thread_id: event.sender_thread_id,
            receiver_thread_ids: seq![event.receiver_thread_id],
            receiver_agents: seq![],
            prompt: None,
            model: None,
            reasoning_effort: None,
            agents_states: Map::empty(),
        }
    }

    /// The call that a reported closing stands for.
    pub open spec fn from_close_end(event: CollabCloseEndEventView) -> CollabAgentToolCallItemView {
        CollabAgentToolCallItemView {
            id: event.call_id,
            tool: CollabAgentTool::CloseAgent,
            status: call_status(event.status, true),
            sender_thread_id: event.sender_thread_id,
            receiver_thread_ids: seq![event.receiver_thread_id],
            receiver_agents: seq![
                CollabAgentRefView {
                    thread_id: event.receiver_thread_id,
                    agent_nickname: event.receiver_agent_nickname,
                    agent_role: event.receiver_agent_role,
                },
            ],
            prompt: None,
            model: None,
            reasoning_effort: None,
            agents_states: map![event.receiver_thread_id => event.status],
        }
    }

    /// The call that an announced resumption stands for.
    pub open spec fn from_resume_begin(
        event: CollabResumeBeginEventView,
    ) -> CollabAgentToolCallItemView {
        CollabAgentToolCallItemView {
            id: event.call_id,
            tool: CollabAgentTool::ResumeAgent,
            status: CollabAgentToolCallStatus::InProgress,
            sender_thread_id: event.sender_thread_id,
            receiver_thread_ids: seq![event.receiver_thread_id],
            receiver_agents: seq![
                CollabAgentRefView {
                    thread_id: event.receiver_thread_id,
                    agent_nickname: event.receiver_agent_nickname,
                    agent_role: event.receiver_agent_role,
                },
            ],
            prompt: None,
            model: None,
            reasoning_effort: None,
            agents_states: Map::empty(),
        }
    }

    /// The call that a reported resumption stands for.
    pub open spec fn from_resume_end(
        event: CollabResumeEndEventView,
    ) -> CollabAgentToolCallItemView {
        CollabAgentToolCallItemView {
            id: event.call_id,
            tool: CollabAgentTool::ResumeAgent,
            status: call_status(event.status, true),
            sender_thread_id: event.sender_thread_id,
            receiver_thread_ids: seq![event.receiver_thread_id],
            receiver_agents: seq![
                CollabAgentRefView {
                    thread_id: event.receiver_thread_id,
                    agent_nickname: event.receiver_agent_nickname,
                    agent_role: event.receiver_agent_role,
                },
            ],
            prompt: None,
            model: None,
            reasoning_effort: None,
            agents_states: map![event.receiver_thread_id => event.status],
        }
    }

    /// The call that a reported wait stands for, with the threads of the awaited agents in some
    /// order. It failed where any of the agents failed.
    pub open spec fn from_waiting_end(
        event: CollabWaitingEndEventView,
        thread_ids: Seq<ThreadId>,
    ) -> CollabAgentToolCallItemView {
        CollabAgentToolCallItemView {
            id: event.call_id,
            tool: CollabAgentTool::Wait,
            status: if any_failure(event.statuses) {
                CollabAgentToolCallStatus::Failed
            } else {
                CollabAgentToolCallStatus::Completed
            },
            sender_thread_id: event.sender_thread_id,
            receiver_thread_ids: thread_ids,
            receiver_agents: Seq::new(
                event.agent_statuses.len(),
                |i: int| event.agent_statuses[i].agent(),
            ),
            prompt: None,
            model: None,
            reasoning_effort: None,
            agents_states: event.statuses,
        }
    }
}

/// Some agent failed, or was not found.
pub open spec fn any_failure(statuses: Map<ThreadId, AgentStatusView>) -> bool {
    exists|thread_id: ThreadId|
        #[trigger] statuses.contains_key(thread_id) && statuses[thread_id].is_failure()
}

impl CollabAgentStatusEntryView {
    /// The agent, without its status.
    pub open spec fn agent(self) -> CollabAgentRefView {
        CollabAgentRefView {
            thread_id: self.thread_id,
            agent_nickname: self.agent_nickname,
            agent_role: self.agent_role,
        }
    }
}

fn has_failure(statuses: &HashMap<ThreadId, AgentStatus>) -> (r: bool)
    ensures
        r == any_failure(status_views(statuses@)),
{
    let ghost views = status_views(statuses@);
    for entry in it: statuses.iter()
        invariant
            views == status_views(statuses@),
            it.seq() == vstd::std_specs::iter::IteratorSpec::remaining(&statuses.iter()),
            forall|i: int|
                0 <= i < it.index() ==> !(#[trigger] it.seq()[i]).1.deep_view().is_failure(),
    {
        let (thread_id, status) = entry;
        let failed = match status {
            AgentStatus::Errored(_) => true,
            AgentStatus::NotFound => true,
            _ => false,
        };
        if failed {
            proof {
                assert(statuses@.contains_key(*it.seq()[it.index() as int].0));
                assert(views.contains_key(*thread_id));
            }
            return true;
        }
    }
    proof {
        if any_failure(views) {
            let thread_id = choose|thread_id: ThreadId| #[trigger]
                views.contains_key(thread_id) && views[thread_id].is_failure();
            assert(statuses@.contains_key(thread_id));
            assert(vstd::std_specs::iter::IteratorSpec::remaining(&statuses.iter()).contains((&thread_id, &statuses@[thread_id])));
        }
    }
    false
}

fn thread_ids_of(statuses: &HashMap<ThreadId, AgentStatus>) -> (ids: Vec<ThreadId>)
    ensures
        ids@.no_duplicates(),
        ids@.to_set() == statuses@.dom(),
{
    let mut ids: Vec<ThreadId> = Vec::new();
    for id in it: statuses.keys()
        invariant
            it.seq() == vstd::std_specs::iter::IteratorSpec::remaining(&statuses.keys()),
            ids@.len() == it.index(),
            forall|i: int| 0 <= i < it.index() ==> ids@[i] == *#[trigger] it.seq()[i],
    {
        ids.push(*id);
    }
    proof {
        let walked = vstd::std_specs::iter::IteratorSpec::remaining(&statuses.keys());
        assert(ids@ =~= walked.unref());
        assert forall|i: int, j: int| 0 <= i < ids@.len() && 0 <= j < ids@.len() && i != j implies ids@[i]
            != ids@[j] by {
            assert(walked[i] != walked[j]);
        }
    }
    ids
}

impl CollabAgentToolCallItem {
    /// Makes the call that an announced spawn stands for.
    pub fn from_collab_agent_spawn_begin_event(
        event: CollabAgentSpawnBeginEvent,
    ) -> (item: CollabAgentToolCallItem)
        ensures
            item.deep_view() == CollabAgentToolCallItemView::from_spawn_begin(event.deep_view()),
    {
        let item = CollabAgentToolCallItem {
            id: event.call_id,
            tool: CollabAgentTool::SpawnAgent,
            status: CollabAgentToolCallStatus::InProgress,
            sender_thread_id: event.sender_thread_id,
            receiver_thread_ids: Vec::new(),
            receiver_agents: Vec::new(),
            prompt: Some(event.prompt),
            model: Some(event.model),
            reasoning_effort: Some(event.reasoning_effort),
            agents_states: no_statuses(),
        };
        assert(item.deep_view() =~= CollabAgentToolCallItemView::from_spawn_begin(
            event.deep_view(),
        ));
        item
    }

    /// Makes the call that a reported spawn stands for.
    pub fn from_collab_agent_spawn_end_event(event: CollabAgentSpawnEndEvent) -> (item:
        CollabAgentToolCallItem)
        ensures
            item.deep_view() == CollabAgentToolCallItemView::from_spawn_end(event.deep_view()),
    {
        let status = collab_tool_call_status(&event.status, event.new_thread_id.is_some());
        let mut receiver_thread_ids: Vec<ThreadId> = Vec::new();
        let mut receiver_agents: Vec<CollabAgentRef> = Vec::new();
        let agents_states = match event.new_thread_id {
            Some(thread_id) => {
                receiver_thread_ids.push(thread_id);
                receiver_agents.push(
                    CollabAgentRef {
                        thread_id,
                        agent_nickname: event.new_agent_nickname,
                        agent_role: event.new_agent_role,
                    },
                );
                single_status(thread_id, event.status)
            },
            None => no_statuses(),
        };
        let item = CollabAgentToolCallItem {
            id: event.call_id,
            tool: CollabAgentTool::SpawnAgent,
            status,
            sender_thread_id: event.sender_thread_id,
            receiver_thread_ids,
            receiver_agents,
            prompt: Some(event.prompt),
            model: Some(event.model),
            reasoning_effort: Some(event.reasoning_effort),
            agents_states,
        };
        assert(item.deep_view() =~= CollabAgentToolCallItemView::from_spawn_end(event.deep_view()));
        item
    }

    /// Makes the call that announced input stands for.
    pub fn from_collab_agent_interaction_begin_event(
        event: CollabAgentInteractionBeginEvent,
    ) -> (item: CollabAgentToolCallItem)
        ensures
            item.deep_view() == CollabAgentToolCallItemView::from_interaction_begin(
                event.deep_view(),
            ),
    {
        let item = CollabAgentToolCallItem {
            id: event.call_id,
            tool: CollabAgentTool::SendInput,
            status: CollabAgentToolCallStatus::InProgress,
            sender_thread_id: event.sender_thread_id,
            receiver_thread_ids: vec![event.receiver_thread_id],
            receiver_agents: Vec::new(),
            prompt: Some(event.prompt),
            model: None,
            reasoning_effort: None,
            agents_states: no_statuses(),
        };
        assert(item.deep_view() =~= CollabAgentToolCallItemView::from_interaction_begin(
            event.deep_view(),
        ));
        item
    }

    /// Makes the call that reported input stands for.
    pub fn from_collab_agent_interaction_end_event(
        event: CollabAgentInteractionEndEvent,
    ) -> (item: CollabAgentToolCallItem)
        ensures
            item.deep_view() == CollabAgentToolCallItemView::from_interaction_end(
                event.deep_view(),
            ),
    {
        let status = collab_tool_call_status(&event.status, true);
        let receiver_agent = CollabAgentRef {
            thread_id: event.receiver_thread_id,
            agent_nickname: event.receiver_agent_nickname,
            agent_role: event.receiver_agent_role,
        };
        let item = CollabAgentToolCallItem {
            id: event.call_id,
            tool: CollabAgentTool::SendInput,
            status: status,
            sender_thread_id: event.sender_thread_id,
            receiver_thread_ids: vec![event.receiver_thread_id],
            receiver_agents: vec![receiver_agent],
            prompt: Some(event.prompt),
            model: None,
            reasoning_effort: None,
            agents_states: single_status(event.receiver_thread_id, event.status),
        };
        assert(item.deep_view() =~= CollabAgentToolCallItemView::from_interaction_end(
            event.deep_view(),
        ));
        item
    }

    /// Makes the call that an announced wait stands for.
    pub fn from_collab_waiting_begin_event(
        event: CollabWaitingBeginEvent,
    ) -> (item: CollabAgentToolCallItem)
        ensures
            item.deep_view() == CollabAgentToolCallItemView::from_waiting_begin(event.deep_view()),
    {
        let item = CollabAgentToolCallItem {
            id: event.call_id,
            tool: CollabAgentTool::Wait,
            status: CollabAgentToolCallStatus::InProgress,
            sender_thread_id: event.sender_thread_id,
            receiver_thread_ids: event.receiver_thread_ids,
            receiver_agents: event.receiver_agents,
            prompt: None,
            model: None,
            reasoning_effort: None,
            agents_states: no_statuses(),
        };
        assert(item.deep_view() =~= CollabAgentToolCallItemView::from_waiting_begin(
            event.deep_view(),
        ));
        item
    }

    /// Makes the call that a reported wait stands for. Its receivers are the threads of the awaited
    /// agents, each once, in an order that is left open.
    pub fn from_collab_waiting_end_event(event: CollabWaitingEndEvent) -> (item:
        CollabAgentToolCallItem)
        ensures
            item.deep_view() == CollabAgentToolCallItemView::from_waiting_end(
                event.deep_view(),
                item.receiver_thread_ids@,
            ),
            item.receiver_thread_ids@.no_duplicates(),
            item.receiver_thread_ids@.to_set() == event.statuses@.dom(),
    {
        let status = if has_failure(&event.statuses) {
            CollabAgentToolCallStatus::Failed
        } else {
            CollabAgentToolCallStatus::Completed
        };
        let receiver_thread_ids = thread_ids_of(&event.statuses);
        let mut receiver_agents: Vec<CollabAgentRef> = Vec::new();
        let mut index: usize = 0;
        while index < event.agent_statuses.len()
            invariant
                index <= event.agent_statuses@.len(),
                receiver_agents@.len() == index,
                forall|i: int|
                    0 <= i < index ==> #[trigger] receiver_agents@[i].deep_view()
                        == event.agent_statuses@[i].deep_view().agent(),
            decreases event.agent_statuses@.len() - index,
        {
            let entry = &event.agent_statuses[index];
            receiver_agents.push(
                CollabAgentRef {
                    thread_id: entry.thread_id,
                    agent_nickname: entry.agent_nickname.duplicate(),
                    agent_role: entry.agent_role.duplicate(),
                },
            );
            index += 1;
        }
        let item = CollabAgentToolCallItem {
            id: event.call_id,
            tool: CollabAgentTool::Wait,
            status,
            sender_thread_id: event.sender_thread_id,
            receiver_thread_ids,
            receiver_agents,
            prompt: None,
            model: None,
            reasoning_effort: None,
            agents_states: event.statuses,
        };
        assert(item.deep_view() =~= CollabAgentToolCallItemView::from_waiting_end(
            event.deep_view(),
            item.receiver_thread_ids@,
        ));
        item
    }

    /// Makes the call that an announced closing stands for.
    pub fn from_collab_close_begin_event(
        event: CollabCloseBeginEvent,
    ) -> (item: CollabAgentToolCallItem)
        ensures
            item.deep_view() == CollabAgentToolCallItemView::from_close_begin(event.deep_view()),
    {
        let item = CollabAgentToolCallItem {
            id: event.call_id,
            tool: CollabAgentTool::CloseAgent,
            status: CollabAgentToolCallStatus::InProgress,
            sender_thread_id: event.sender_thread_id,
            receiver_thread_ids: vec![event.receiver_thread_id],
            receiver_agents: Vec::new(),
            prompt: None,
            model: None,
            reasoning_effort: None,
            agents_states: no_statuses(),
        };
        assert(item.deep_view() =~= CollabAgentToolCallItemView::from_close_begin(
            event.deep_view(),
        ));
        item
    }

    /// Makes the call that a reported closing stands for.
    pub fn from_collab_close_end_event(
        event: CollabCloseEndEvent,
    ) -> (item: CollabAgentToolCallItem)
        ensures
            item.deep_view() == CollabAgentToolCallItemView::from_close_end(event.deep_view()),
    {
        let status = collab_tool_call_status(&event.status, true);
        let receiver_agent = CollabAgentRef {
            thread_id: event.receiver_thread_id,
            agent_nickname: event.receiver_agent_nickname,
            agent_role: event.receiver_agent_role,
        };
        let item = CollabAgentToolCallItem {
            id: event.call_id,
            tool: CollabAgentTool::CloseAgent,
            status: status,
            sender_thread_id: event.sender_thread_id,
            receiver_thread_ids: vec![event.receiver_thread_id],
            receiver_agents: vec![receiver_agent],
            prompt: None,
            model: None,
            reasoning_effort: None,
            agents_states: single_status(event.receiver_thread_id, event.status),
        };
        assert(item.deep_view() =~= CollabAgentToolCallItemView::from_close_end(event.deep_view()));
        item
    }

    /// Makes the call that an announced resumption stands for.
    pub fn from_collab_resume_begin_event(
        event: CollabResumeBeginEvent,
    ) -> (item: CollabAgentToolCallItem)
        ensures
            item.deep_view() == CollabAgentToolCallItemView::from_resume_begin(event.deep_view()),
    {
        let receiver_agent = CollabAgentRef {
            thread_id: event.receiver_thread_id,
            agent_nickname: event.receiver_agent_nickname,
            agent_role: event.receiver_agent_role,
        };
        let item = CollabAgentToolCallItem {
            id: event.call_id,
            tool: CollabAgentTool::ResumeAgent,
            status: CollabAgentToolCallStatus::InProgress,
            sender_thread_id: event.sender_thread_id,
            receiver_thread_ids: vec![event.receiver_thread_id],
            receiver_agents: vec![receiver_agent],
            prompt: None,
            model: None,
            reasoning_effort: None,
            agents_states: no_statuses(),
        };
        assert(item.deep_view() =~= CollabAgentToolCallItemView::from_resume_begin(
            event.deep_view(),
        ));
        item
    }

    /// Makes the call that a reported resumption stands for.
    pub fn from_collab_resume_end_event(
        event: CollabResumeEndEvent,
    ) -> (item: CollabAgentToolCallItem)
        ensures
            item.deep_view() == CollabAgentToolCallItemView::from_resume_end(event.deep_view()),
    {
        let status = collab_tool_call_status(&event.status, true);
        let receiver_agent = CollabAgentRef {
            thread_id: event.receiver_thread_id,
            agent_nickname: event.receiver_agent_nickname,
            agent_role: event.receiver_agent_role,
        };
        let item = CollabAgentToolCallItem {
            id: event.call_id,
            tool: CollabAgentTool::ResumeAgent,
            status: status,
            sender_thread_id: event.sender_thread_id,
            receiver_thread_ids: vec![event.receiver_thread_id],
            receiver_agents: vec![receiver_agent],
            prompt: None,
            model: None,
            reasoning_effort: None,
            agents_states: single_status(event.receiver_thread_id, event.status),
        };
        assert(item.deep_view() =~= CollabAgentToolCallItemView::from_resume_end(
            event.deep_view(),
        ));
        item
    }
}

/// A call that is in progress has no event that reports what it came to.
pub proof fn law_no_end_event_while_in_progress(
    item: CollabAgentToolCallItemView,
    completed_at_ms: i64,
)
    requires
        item.status == CollabAgentToolCallStatus::InProgress,
    ensures
        item.legacy_end_event(completed_at_ms) is None,
{
}

/// The event that announces a spawn is given back by the call that it stands for, and that call is
/// not reported as ended.
pub proof fn law_spawn_begin_event_round_trip(
    event: CollabAgentSpawnBeginEventView,
    completed_at_ms: i64,
)
    ensures
        CollabAgentToolCallItemView::from_spawn_begin(event).legacy_begin_event(event.started_at_ms)
            == Some(EventMsgView::CollabAgentSpawnBegin(event)),
        CollabAgentToolCallItemView::from_spawn_begin(event).legacy_end_event(
            completed_at_ms,
        ) is None,
{
    reveal_with_fuel(agent_in_thread, 2);
}

/// The event that announces an input is given back by the call that it stands for, and that call is
/// not reported as ended.
pub proof fn law_interaction_begin_event_round_trip(
    event: CollabAgentInteractionBeginEventView,
    completed_at_ms: i64,
)
    ensures
        CollabAgentToolCallItemView::from_interaction_begin(event).legacy_begin_event(
            event.started_at_ms,
        )
            == Some(EventMsgView::CollabAgentInteractionBegin(event)),
        CollabAgentToolCallItemView::from_interaction_begin(event).legacy_end_event(
            completed_at_ms,
        ) is None,
{
    reveal_with_fuel(agent_in_thread, 2);
}

/// The event that announces a wait is given back by the call that it stands for, and that call is
/// not reported as ended.
pub proof fn law_waiting_begin_event_round_trip(
    event: CollabWaitingBeginEventView,
    completed_at_ms: i64,
)
    ensures
        CollabAgentToolCallItemView::from_waiting_begin(event).legacy_begin_event(
            event.started_at_ms,
        )
            == Some(EventMsgView::CollabWaitingBegin(event)),
        CollabAgentToolCallItemView::from_waiting_begin(event).legacy_end_event(
            completed_at_ms,
        ) is None,
{
    reveal_with_fuel(agent_in_thread, 2);
}

/// The event that announces a closing is given back by the call that it stands for, and that call is
/// not reported as ended.
pub proof fn law_close_begin_event_round_trip(
    event: CollabCloseBeginEventView,
    completed_at_ms: i64,
)
    ensures
        CollabAgentToolCallItemView::from_close_begin(event).legacy_begin_event(event.started_at_ms)
            == Some(EventMsgView::CollabCloseBegin(event)),
        CollabAgentToolCallItemView::from_close_begin(event).legacy_end_event(
            completed_at_ms,
        ) is None,
{
    reveal_with_fuel(agent_in_thread, 2);
}

/// The event that announces a resumption is given back by the call that it stands for, and that call is
/// not reported as ended.
pub proof fn law_resume_begin_event_round_trip(
    event: CollabResumeBeginEventView,
    completed_at_ms: i64,
)
    ensures
        CollabAgentToolCallItemView::from_resume_begin(event).legacy_begin_event(
            event.started_at_ms,
        )
            == Some(EventMsgView::CollabResumeBegin(event)),
        CollabAgentToolCallItemView::from_resume_begin(event).legacy_end_event(
            completed_at_ms,
        ) is None,
{
    reveal_with_fuel(agent_in_thread, 2);
}

/// The event that reports input is given back by the call that it stands for.
pub proof fn law_interaction_end_event_round_trip(event: CollabAgentInteractionEndEventView)
    ensures
        CollabAgentToolCallItemView::from_interaction_end(event).legacy_end_event(
            event.completed_at_ms,
        )
            == Some(EventMsgView::CollabAgentInteractionEnd(event)),
{
    reveal_with_fuel(agent_in_thread, 2);
}

/// The event that reports a closing is given back by the call that it stands for.
pub proof fn law_close_end_event_round_trip(event: CollabCloseEndEventView)
    ensures
        CollabAgentToolCallItemView::from_close_end(event).legacy_end_event(event.completed_at_ms)
            == Some(EventMsgView::CollabCloseEnd(event)),
{
    reveal_with_fuel(agent_in_thread, 2);
}

/// The event that reports a resumption is given back by the call that it stands for.
pub proof fn law_resume_end_event_round_trip(event: CollabResumeEndEventView)
    ensures
        CollabAgentToolCallItemView::from_resume_end(event).legacy_end_event(event.completed_at_ms)
            == Some(EventMsgView::CollabResumeEnd(event)),
{
    reveal_with_fuel(agent_in_thread, 2);
}

/// The event that reports a spawn is given back by the call that it stands for. Without a new
/// thread there is nothing that the call could hold of the agent: then that is so of an event that
/// says as much.
pub proof fn law_spawn_end_event_round_trip(event: CollabAgentSpawnEndEventView)
    requires
        event.new_thread_id is None ==> event.new_agent_nickname is None && event.new_agent_role
            is None && event.status is NotFound,
    ensures
        CollabAgentToolCallItemView::from_spawn_end(event).legacy_end_event(event.completed_at_ms)
            == Some(EventMsgView::CollabAgentSpawnEnd(event)),
{
    reveal_with_fuel(agent_in_thread, 2);
}

/// The event that reports a wait is given back by the call that it stands for, where its entries
/// agree with its statuses.
pub proof fn law_waiting_end_event_round_trip(
    event: CollabWaitingEndEventView,
    thread_ids: Seq<ThreadId>,
)
    requires
        forall|i: int|
            #![trigger event.agent_statuses[i]]
            0 <= i < event.agent_statuses.len() ==> event.agent_statuses[i].status == if event
                .statuses.contains_key(event.agent_statuses[i].thread_id) {
                event.statuses[event.agent_statuses[i].thread_id]
            } else {
                AgentStatusView::NotFound
            },
    ensures
        CollabAgentToolCallItemView::from_waiting_end(event, thread_ids).legacy_end_event(
            event.completed_at_ms,
        ) == Some(EventMsgView::CollabWaitingEnd(event)),
{
    let item = CollabAgentToolCallItemView::from_waiting_end(event, thread_ids);
    assert forall|i: int| 0 <= i < event.agent_statuses.len() implies item.status_entries()[i]
        == event.agent_statuses[i] by {
        assert(item.receiver_agents[i] == event.agent_statuses[i].agent());
    }
    assert(item.status_entries() =~= event.agent_statuses);
}

} // verus!
