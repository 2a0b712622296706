//! What the calls of the collaboration tools keep of their events, and their events of them.

use vstd::prelude::*;

use crate::items::collab::{
    CollabAgentTool, CollabAgentToolCallItemView, CollabAgentToolCallStatus,
};
use crate::models::{ReasoningEffort, ThreadId};
use crate::protocol::{
    CollabAgentInteractionBeginEventView, CollabAgentInteractionEndEventView,
    CollabAgentRefView, CollabAgentSpawnBeginEventView, CollabAgentSpawnEndEventView,
    CollabCloseBeginEventView, CollabCloseEndEventView, CollabResumeBeginEventView,
    CollabResumeEndEventView, CollabWaitingBeginEventView, CollabWaitingEndEventView, EventMsgView,
};

verus! {

/// A call that reached its agent failed exactly where the agent ran into an error or was not
/// found, whichever of the three tools was called; otherwise it completed. What the agent is
/// doing, what its last message was and who the agent is make no difference.
pub proof fn law_call_fails_with_its_agent(
    input: CollabAgentInteractionEndEventView,
    resumption: CollabResumeEndEventView,
    closing: CollabCloseEndEventView,
)
    ensures
        CollabAgentToolCallItemView::from_interaction_end(input).status
            == CollabAgentToolCallStatus::Failed <==> (input.status is Errored
            || input.status is NotFound),
        CollabAgentToolCallItemView::from_interaction_end(input).status
            == CollabAgentToolCallStatus::Completed <==> !(input.status is Errored
            || input.status is NotFound),
        CollabAgentToolCallItemView::from_resume_end(resumption).status
            == CollabAgentToolCallStatus::Failed <==> (resumption.status is Errored
            || resumption.status is NotFound),
        CollabAgentToolCallItemView::from_resume_end(resumption).status
            == CollabAgentToolCallStatus::Completed <==> !(resumption.status is Errored
            || resumption.status is NotFound),
        CollabAgentToolCallItemView::from_close_end(closing).status
            == CollabAgentToolCallStatus::Failed <==> (closing.status is Errored
            || closing.status is NotFound),
        CollabAgentToolCallItemView::from_close_end(closing).status
            == CollabAgentToolCallStatus::Completed <==> !(closing.status is Errored
            || closing.status is NotFound),
{
}

/// An agent was spawned exactly where its thread is known and it neither ran into an error nor
/// was lost.
pub proof fn law_spawning_needs_a_thread(event: CollabAgentSpawnEndEventView)
    ensures
        CollabAgentToolCallItemView::from_spawn_end(event).status
            == CollabAgentToolCallStatus::Completed <==> event.new_thread_id is Some && !(
        event.status is Errored || event.status is NotFound),
        CollabAgentToolCallItemView::from_spawn_end(event).status
            != CollabAgentToolCallStatus::InProgress,
{
}

/// Waiting failed exactly where one of the agents that were waited for ran into an error or was
/// not found, in whatever order they are listed.
pub proof fn law_waiting_fails_with_any_agent(
    event: CollabWaitingEndEventView,
    thread_ids: Seq<ThreadId>,
)
    ensures
        CollabAgentToolCallItemView::from_waiting_end(event, thread_ids).status
            == CollabAgentToolCallStatus::Failed <==> exists|thread_id: ThreadId|
            #[trigger] event.statuses.contains_key(thread_id) && (
            event.statuses[thread_id] is Errored || event.statuses[thread_id] is NotFound),
        CollabAgentToolCallItemView::from_waiting_end(event, thread_ids).status
            != CollabAgentToolCallStatus::InProgress,
{
    if exists|thread_id: ThreadId|
        #[trigger] event.statuses.contains_key(thread_id) && (
        event.statuses[thread_id] is Errored || event.statuses[thread_id] is NotFound) {
        let thread_id = choose|thread_id: ThreadId|
            #[trigger] event.statuses.contains_key(thread_id) && (
            event.statuses[thread_id] is Errored || event.statuses[thread_id] is NotFound);
        assert(event.statuses.contains_key(thread_id) && event.statuses[thread_id].is_failure());
    }
}

/// A call whose begin was reported is in progress, is the call that the event names, of the tool
/// that the event is about and from the sender of the event, and knows no agent's status yet.
pub proof fn law_begun_calls_are_in_progress(
    spawn: CollabAgentSpawnBeginEventView,
    input: CollabAgentInteractionBeginEventView,
    wait: CollabWaitingBeginEventView,
    closing: CollabCloseBeginEventView,
    resumption: CollabResumeBeginEventView,
)
    ensures
        ({
            let item = CollabAgentToolCallItemView::from_spawn_begin(spawn);
            &&& item.id == spawn.call_id
            &&& item.tool == CollabAgentTool::SpawnAgent
            &&& item.status == CollabAgentToolCallStatus::InProgress
            &&& item.sender_thread_id == spawn.sender_thread_id
            &&& item.receiver_thread_ids.len() == 0
            &&& item.receiver_agents.len() == 0
            &&& item.prompt == Some(spawn.prompt)
            &&& item.model == Some(spawn.model)
            &&& item.reasoning_effort == Some(spawn.reasoning_effort)
            &&& forall|thread_id: ThreadId| !#[trigger] item.agents_states.contains_key(thread_id)
        }),
        ({
            let item = CollabAgentToolCallItemView::from_interaction_begin(input);
            &&& item.id == input.call_id
            &&& item.tool == CollabAgentTool::SendInput
            &&& item.status == CollabAgentToolCallStatus::InProgress
            &&& item.sender_thread_id == input.sender_thread_id
            &&& item.receiver_thread_ids.len() == 1
            &&& item.receiver_thread_ids[0] == input.receiver_thread_id
            &&& item.receiver_agents.len() == 0
            &&& item.prompt == Some(input.prompt)
            &&& item.model is None
            &&& item.reasoning_effort is None
            &&& forall|thread_id: ThreadId| !#[trigger] item.agents_states.contains_key(thread_id)
        }),
        ({
            let item = CollabAgentToolCallItemView::from_waiting_begin(wait);
            &&& item.id == wait.call_id
            &&& item.tool == CollabAgentTool::Wait
            &&& item.status == CollabAgentToolCallStatus::InProgress
            &&& item.sender_thread_id == wait.sender_thread_id
            &&& item.receiver_thread_ids == wait.receiver_thread_ids
            &&& item.receiver_agents == wait.receiver_agents
            &&& item.prompt is None
            &&& item.model is None
            &&& item.reasoning_effort is None
            &&& forall|thread_id: ThreadId| !#[trigger] item.agents_states.contains_key(thread_id)
        }),
        ({
            let item = CollabAgentToolCallItemView::from_close_begin(closing);
            &&& item.id == closing.call_id
            &&& item.tool == CollabAgentTool::CloseAgent
            &&& item.status == CollabAgentToolCallStatus::InProgress
            &&& item.sender_thread_id == closing.sender_thread_id
            &&& item.receiver_thread_ids.len() == 1
            &&& item.receiver_thread_ids[0] == closing.receiver_thread_id
            &&& item.receiver_agents.len() == 0
            &&& item.prompt is None
            &&& item.model is None
            &&& item.reasoning_effort is None
            &&& forall|thread_id: ThreadId| !#[trigger] item.agents_states.contains_key(thread_id)
        }),
        ({
            let item = CollabAgentToolCallItemView::from_resume_begin(resumption);
            &&& item.id == resumption.call_id
            &&& item.tool == CollabAgentTool::ResumeAgent
            &&& item.status == CollabAgentToolCallStatus::InProgress
            &&& item.sender_thread_id == resumption.sender_thread_id
            &&& item.receiver_thread_ids.len() == 1
            &&& item.receiver_thread_ids[0] == resumption.receiver_thread_id
            &&& item.receiver_agents.len() == 1
            &&& item.receiver_agents[0].thread_id == resumption.receiver_thread_id
            &&& item.receiver_agents[0].agent_nickname == resumption.receiver_agent_nickname
            &&& item.receiver_agents[0].agent_role == resumption.receiver_agent_role
            &&& item.prompt is None
            &&& item.model is None
            &&& item.reasoning_effort is None
            &&& forall|thread_id: ThreadId| !#[trigger] item.agents_states.contains_key(thread_id)
        }),
{
}

/// A call that ended keeps what its end event says: the call, its tool and sender, the one agent
/// that received it with its name and role, and that agent's status, which is the only one.
pub proof fn law_ended_calls_keep_their_agent(
    input: CollabAgentInteractionEndEventView,
    closing: CollabCloseEndEventView,
    resumption: CollabResumeEndEventView,
)
    ensures
        ({
            let item = CollabAgentToolCallItemView::from_interaction_end(input);
            &&& item.id == input.call_id
            &&& item.tool == CollabAgentTool::SendInput
            &&& item.sender_thread_id == input.sender_thread_id
            &&& item.receiver_thread_ids.len() == 1
            &&& item.receiver_thread_ids[0] == input.receiver_thread_id
            &&& item.receiver_agents.len() == 1
            &&& item.receiver_agents[0].thread_id == input.receiver_thread_id
            &&& item.receiver_agents[0].agent_nickname == input.receiver_agent_nickname
            &&& item.receiver_agents[0].agent_role == input.receiver_agent_role
            &&& item.prompt == Some(input.prompt)
            &&& item.model is None
            &&& item.reasoning_effort is None
            &&& item.agents_states.contains_key(input.receiver_thread_id)
            &&& item.agents_states[input.receiver_thread_id] == input.status
            &&& forall|thread_id: ThreadId|
                #[trigger] item.agents_states.contains_key(thread_id) ==> thread_id
                    == input.receiver_thread_id
        }),
        ({
            let item = CollabAgentToolCallItemView::from_close_end(closing);
            &&& item.id == closing.call_id
            &&& item.tool == CollabAgentTool::CloseAgent
            &&& item.sender_thread_id == closing.sender_thread_id
            &&& item.receiver_thread_ids.len() == 1
            &&& item.receiver_thread_ids[0] == closing.receiver_thread_id
            &&& item.receiver_agents.len() == 1
            &&& item.receiver_agents[0].thread_id == closing.receiver_thread_id
            &&& item.receiver_agents[0].agent_nickname == closing.receiver_agent_nickname
            &&& item.receiver_agents[0].agent_role == closing.receiver_agent_role
            &&& item.prompt is None
            &&& item.model is None
            &&& item.reasoning_effort is None
            &&& item.agents_states.contains_key(closing.receiver_thread_id)
            &&& item.agents_states[closing.receiver_thread_id] == closing.status
            &&& forall|thread_id: ThreadId|
                #[trigger] item.agents_states.contains_key(thread_id) ==> thread_id
                    == closing.receiver_thread_id
        }),
        ({
            let item = CollabAgentToolCallItemView::from_resume_end(resumption);
            &&& item.id == resumption.call_id
            &&& item.tool == CollabAgentTool::ResumeAgent
            &&& item.sender_thread_id == resumption.sender_thread_id
            &&& item.receiver_thread_ids.len() == 1
            &&& item.receiver_thread_ids[0] == resumption.receiver_thread_id
            &&& item.receiver_agents.len() == 1
            &&& item.receiver_agents[0].thread_id == resumption.receiver_thread_id
            &&& item.receiver_agents[0].agent_nickname == resumption.receiver_agent_nickname
            &&& item.receiver_agents[0].agent_role == resumption.receiver_agent_role
            &&& item.prompt is None
            &&& item.model is None
            &&& item.reasoning_effort is None
            &&& item.agents_states.contains_key(resumption.receiver_thread_id)
            &&& item.agents_states[resumption.receiver_thread_id] == resumption.status
            &&& forall|thread_id: ThreadId|
                #[trigger] item.agents_states.contains_key(thread_id) ==> thread_id
                    == resumption.receiver_thread_id
        }),
{
}

/// The call that spawned an agent keeps what it was spawned with, and the agent, with its name,
/// role and status, where its thread is known; without a thread it names no agent at all.
pub proof fn law_spawned_agent_is_kept(event: CollabAgentSpawnEndEventView)
    ensures
        ({
            let item = CollabAgentToolCallItemView::from_spawn_end(event);
            &&& item.id == event.call_id
            &&& item.tool == CollabAgentTool::SpawnAgent
            &&& item.sender_thread_id == event.sender_thread_id
            &&& item.prompt == Some(event.prompt)
            &&& item.model == Some(event.model)
            &&& item.reasoning_effort == Some(event.reasoning_effort)
            &&& event.new_thread_id matches Some(new_thread_id) ==> {
                &&& item.receiver_thread_ids.len() == 1
                &&& item.receiver_thread_ids[0] == new_thread_id
                &&& item.receiver_agents.len() == 1
                &&& item.receiver_agents[0].thread_id == new_thread_id
                &&& item.receiver_agents[0].agent_nickname == event.new_agent_nickname
                &&& item.receiver_agents[0].agent_role == event.new_agent_role
                &&& item.agents_states.contains_key(new_thread_id)
                &&& item.agents_states[new_thread_id] == event.status
                &&& forall|thread_id: ThreadId|
                    #[trigger] item.agents_states.contains_key(thread_id) ==> thread_id
                        == new_thread_id
            }
            &&& event.new_thread_id is None ==> {
                &&& item.receiver_thread_ids.len() == 0
                &&& item.receiver_agents.len() == 0
                &&& forall|thread_id: ThreadId|
                    !#[trigger] item.agents_states.contains_key(thread_id)
            }
        }),
{
}

/// The call that waited for agents keeps each of them, in order, and every status.
pub proof fn law_awaited_agents_are_kept(
    event: CollabWaitingEndEventView,
    thread_ids: Seq<ThreadId>,
)
    ensures
        ({
            let item = CollabAgentToolCallItemView::from_waiting_end(event, thread_ids);
            &&& item.id == event.call_id
            &&& item.tool == CollabAgentTool::Wait
            &&& item.sender_thread_id == event.sender_thread_id
            &&& item.receiver_thread_ids == thread_ids
            &&& item.receiver_agents.len() == event.agent_statuses.len()
            &&& forall|i: int|
                0 <= i < event.agent_statuses.len() ==> {
                    &&& (#[trigger] item.receiver_agents[i]).thread_id
                        == event.agent_statuses[i].thread_id
                    &&& item.receiver_agents[i].agent_nickname
                        == event.agent_statuses[i].agent_nickname
                    &&& item.receiver_agents[i].agent_role == event.agent_statuses[i].agent_role
                }
            &&& item.prompt is None
            &&& item.model is None
            &&& item.reasoning_effort is None
            &&& item.agents_states == event.statuses
        }),
{
}

/// The agent of a thread is the first that is listed for it: whatever stands behind it makes no
/// difference, and there is none exactly where no listed agent has that thread.
pub proof fn law_first_agent_of_a_thread(
    before: Seq<CollabAgentRefView>,
    agent: CollabAgentRefView,
    after: Seq<CollabAgentRefView>,
)
    requires
        forall|i: int|
            0 <= i < before.len() ==> (#[trigger] before[i]).thread_id != agent.thread_id,
    ensures
        crate::items::collab::agent_in_thread(before.push(agent) + after, agent.thread_id) == Some(
            agent,
        ),
        crate::items::collab::agent_in_thread(before, agent.thread_id) is None,
    decreases before.len(),
{
    let all = before.push(agent) + after;
    if before.len() == 0 {
        assert(all[0] == agent);
    } else {
        let rest = before.drop_first();
        assert forall|i: int| 0 <= i < rest.len() implies (#[trigger] rest[i]).thread_id
            != agent.thread_id by {
            assert(rest[i] == before[i + 1]);
        }
        law_first_agent_of_a_thread(rest, agent, after);
        assert(all[0] == before[0]);
        assert(all.drop_first() =~= rest.push(agent) + after);
    }
}

/// The name and the role that an agent is reported with are the agent's own; an agent that is not
/// listed has neither.
pub proof fn law_agents_are_named(agent: CollabAgentRefView)
    ensures
        crate::items::collab::nickname_of(Some(agent)) == agent.agent_nickname,
        crate::items::collab::role_of(Some(agent)) == agent.agent_role,
        crate::items::collab::nickname_of(None) is None,
        crate::items::collab::role_of(None) is None,
{
}

/// The begin event of a call says what the call holds, and when it was begun. A call of a tool
/// that needs a receiver has no such event without one; the others always have one.
pub proof fn law_begin_event_says_what_the_call_holds(
    item: CollabAgentToolCallItemView,
    started_at_ms: i64,
)
    ensures
        item.legacy_begin_event(started_at_ms) is None <==> item.receiver_thread_ids.len() == 0 && (
        item.tool == CollabAgentTool::SendInput || item.tool == CollabAgentTool::ResumeAgent
            || item.tool == CollabAgentTool::CloseAgent),
        item.tool == CollabAgentTool::SpawnAgent ==> {
            &&& item.legacy_begin_event(started_at_ms) matches Some(
                EventMsgView::CollabAgentSpawnBegin(event),
            )
            &&& event.call_id == item.id
            &&& event.started_at_ms == started_at_ms
            &&& event.sender_thread_id == item.sender_thread_id
            &&& item.prompt == Some(event.prompt) || (item.prompt is None && event.prompt.len()
                == 0)
            &&& item.model == Some(event.model) || (item.model is None && event.model.len() == 0)
            &&& item.reasoning_effort == Some(event.reasoning_effort) || (
            item.reasoning_effort is None && event.reasoning_effort == ReasoningEffort::Medium)
        },
        item.tool == CollabAgentTool::SendInput && item.receiver_thread_ids.len() > 0 ==> {
            &&& item.legacy_begin_event(started_at_ms) matches Some(
                EventMsgView::CollabAgentInteractionBegin(event),
            )
            &&& event.call_id == item.id
            &&& event.started_at_ms == started_at_ms
            &&& event.sender_thread_id == item.sender_thread_id
            &&& event.receiver_thread_id == item.receiver_thread_ids[0]
            &&& item.prompt == Some(event.prompt) || (item.prompt is None && event.prompt.len()
                == 0)
        },
        item.tool == CollabAgentTool::ResumeAgent && item.receiver_thread_ids.len() > 0 ==> {
            &&& item.legacy_begin_event(started_at_ms) matches Some(
                EventMsgView::CollabResumeBegin(event),
            )
            &&& event.call_id == item.id
            &&& event.started_at_ms == started_at_ms
            &&& event.sender_thread_id == item.sender_thread_id
            &&& event.receiver_thread_id == item.receiver_thread_ids[0]
            &&& event.receiver_agent_nickname == crate::items::collab::nickname_of(
                crate::items::collab::agent_in_thread(
                    item.receiver_agents,
                    item.receiver_thread_ids[0],
                ),
            )
            &&& event.receiver_agent_role == crate::items::collab::role_of(
                crate::items::collab::agent_in_thread(
                    item.receiver_agents,
                    item.receiver_thread_ids[0],
                ),
            )
        },
        item.tool == CollabAgentTool::Wait ==> {
            &&& item.legacy_begin_event(started_at_ms) matches Some(
                EventMsgView::CollabWaitingBegin(event),
            )
            &&& event.call_id == item.id
            &&& event.started_at_ms == started_at_ms
            &&& event.sender_thread_id == item.sender_thread_id
            &&& event.receiver_thread_ids == item.receiver_thread_ids
            &&& event.receiver_agents == item.receiver_agents
        },
        item.tool == CollabAgentTool::CloseAgent && item.receiver_thread_ids.len() > 0 ==> {
            &&& item.legacy_begin_event(started_at_ms) matches Some(
                EventMsgView::CollabCloseBegin(event),
            )
            &&& event.call_id == item.id
            &&& event.started_at_ms == started_at_ms
            &&& event.sender_thread_id == item.sender_thread_id
            &&& event.receiver_thread_id == item.receiver_thread_ids[0]
        },
{
}

/// A call in progress has no end event, nor has a call without a receiver of a tool that needs
/// one; every other call has one.
pub proof fn law_only_ended_calls_have_an_end_event(
    item: CollabAgentToolCallItemView,
    completed_at_ms: i64,
)
    ensures
        item.legacy_end_event(completed_at_ms) is None <==> (item.status
            == CollabAgentToolCallStatus::InProgress || (item.receiver_thread_ids.len() == 0 && (
        item.tool == CollabAgentTool::SendInput || item.tool == CollabAgentTool::ResumeAgent
            || item.tool == CollabAgentTool::CloseAgent))),
{
}

/// The status that is known of an agent is the one that the call holds for its thread; an agent
/// that the call holds no status for was not found.
pub proof fn law_unknown_agents_were_not_found(
    item: CollabAgentToolCallItemView,
    thread_id: ThreadId,
)
    ensures
        item.agents_states.contains_key(thread_id) ==> item.agent_status(thread_id)
            == item.agents_states[thread_id],
        !item.agents_states.contains_key(thread_id) ==> item.agent_status(thread_id) is NotFound,
{
}

/// The end event of a spawning says what the call holds, and when it ended: the first receiver is
/// the agent that was spawned, and without one the agent was not found.
pub proof fn law_spawn_end_event(item: CollabAgentToolCallItemView, completed_at_ms: i64)
    requires
        item.status != CollabAgentToolCallStatus::InProgress,
        item.tool == CollabAgentTool::SpawnAgent,
    ensures
        item.legacy_end_event(completed_at_ms) matches Some(
            EventMsgView::CollabAgentSpawnEnd(event),
        ) && {
            &&& event.call_id == item.id
            &&& event.completed_at_ms == completed_at_ms
            &&& event.sender_thread_id == item.sender_thread_id
            &&& item.prompt == Some(event.prompt) || (item.prompt is None && event.prompt.len()
                == 0)
            &&& item.model == Some(event.model) || (item.model is None && event.model.len() == 0)
            &&& item.reasoning_effort == Some(event.reasoning_effort) || (
            item.reasoning_effort is None && event.reasoning_effort == ReasoningEffort::Medium)
            &&& item.receiver_thread_ids.len() > 0 ==> {
                &&& event.new_thread_id == Some(item.receiver_thread_ids[0])
                &&& event.new_agent_nickname == crate::items::collab::nickname_of(
                    crate::items::collab::agent_in_thread(
                        item.receiver_agents,
                        item.receiver_thread_ids[0],
                    ),
                )
                &&& event.new_agent_role == crate::items::collab::role_of(
                    crate::items::collab::agent_in_thread(
                        item.receiver_agents,
                        item.receiver_thread_ids[0],
                    ),
                )
                &&& item.agents_states.contains_key(item.receiver_thread_ids[0]) ==> event.status
                    == item.agents_states[item.receiver_thread_ids[0]]
                &&& !item.agents_states.contains_key(item.receiver_thread_ids[0])
                    ==> event.status is NotFound
            }
            &&& item.receiver_thread_ids.len() == 0 ==> {
                &&& event.new_thread_id is None
                &&& event.new_agent_nickname is None
                &&& event.new_agent_role is None
                &&& event.status is NotFound
            }
        },
{
}

/// The end event of an input, a resumption or a closing says what the call holds, and when it
/// ended: the call, its sender, its first receiver with that agent's name and role, and the
/// agent's status, which is that it was not found where the call holds none.
pub proof fn law_end_event_says_what_the_call_holds(
    item: CollabAgentToolCallItemView,
    completed_at_ms: i64,
)
    requires
        item.status != CollabAgentToolCallStatus::InProgress,
        item.receiver_thread_ids.len() > 0,
    ensures
        ({
            let thread_id = item.receiver_thread_ids[0];
            let agent = crate::items::collab::agent_in_thread(item.receiver_agents, thread_id);
            &&& item.tool == CollabAgentTool::SendInput ==> {
                &&& item.legacy_end_event(completed_at_ms) matches Some(
                    EventMsgView::CollabAgentInteractionEnd(event),
                )
                &&& event.call_id == item.id
                &&& event.completed_at_ms == completed_at_ms
                &&& event.sender_thread_id == item.sender_thread_id
                &&& event.receiver_thread_id == thread_id
                &&& event.receiver_agent_nickname == crate::items::collab::nickname_of(agent)
                &&& event.receiver_agent_role == crate::items::collab::role_of(agent)
                &&& item.prompt == Some(event.prompt) || (item.prompt is None && event.prompt.len()
                    == 0)
                &&& item.agents_states.contains_key(thread_id) ==> event.status
                    == item.agents_states[thread_id]
                &&& !item.agents_states.contains_key(thread_id) ==> event.status is NotFound
            }
            &&& item.tool == CollabAgentTool::ResumeAgent ==> {
                &&& item.legacy_end_event(completed_at_ms) matches Some(
                    EventMsgView::CollabResumeEnd(event),
                )
                &&& event.call_id == item.id
                &&& event.completed_at_ms == completed_at_ms
                &&& event.sender_thread_id == item.sender_thread_id
                &&& event.receiver_thread_id == thread_id
                &&& event.receiver_agent_nickname == crate::items::collab::nickname_of(agent)
                &&& event.receiver_agent_role == crate::items::collab::role_of(agent)
                &&& item.agents_states.contains_key(thread_id) ==> event.status
                    == item.agents_states[thread_id]
                &&& !item.agents_states.contains_key(thread_id) ==> event.status is NotFound
            }
            &&& item.tool == CollabAgentTool::CloseAgent ==> {
                &&& item.legacy_end_event(completed_at_ms) matches Some(
                    EventMsgView::CollabCloseEnd(event),
                )
                &&& event.call_id == item.id
                &&& event.completed_at_ms == completed_at_ms
                &&& event.sender_thread_id == item.sender_thread_id
                &&& event.receiver_thread_id == thread_id
                &&& event.receiver_agent_nickname == crate::items::collab::nickname_of(agent)
                &&& event.receiver_agent_role == crate::items::collab::role_of(agent)
                &&& item.agents_states.contains_key(thread_id) ==> event.status
                    == item.agents_states[thread_id]
                &&& !item.agents_states.contains_key(thread_id) ==> event.status is NotFound
            }
        }),
{
}

/// The end event of waiting lists every agent that the call holds, in order, each with its own
/// status, and every status that the call holds.
pub proof fn law_wait_end_event(item: CollabAgentToolCallItemView, completed_at_ms: i64)
    requires
        item.status != CollabAgentToolCallStatus::InProgress,
        item.tool == CollabAgentTool::Wait,
    ensures
        item.legacy_end_event(completed_at_ms) matches Some(EventMsgView::CollabWaitingEnd(event))
            && {
            &&& event.call_id == item.id
            &&& event.completed_at_ms == completed_at_ms
            &&& event.sender_thread_id == item.sender_thread_id
            &&& event.statuses == item.agents_states
            &&& event.agent_statuses.len() == item.receiver_agents.len()
            &&& forall|i: int|
                0 <= i < item.receiver_agents.len() ==> {
                    let thread_id = item.receiver_agents[i].thread_id;
                    &&& (#[trigger] event.agent_statuses[i]).thread_id == thread_id
                    &&& event.agent_statuses[i].agent_nickname
                        == item.receiver_agents[i].agent_nickname
                    &&& event.agent_statuses[i].agent_role == item.receiver_agents[i].agent_role
                    &&& item.agents_states.contains_key(thread_id)
                        ==> event.agent_statuses[i].status == item.agents_states[thread_id]
                    &&& !item.agents_states.contains_key(thread_id)
                        ==> event.agent_statuses[i].status is NotFound
                }
        },
{
}

/// The agent that a call holds for a thread is the first of its agents that is listed for it,
/// whether or not the thread is a receiver of the call.
pub proof fn law_agent_of_a_call(
    item: CollabAgentToolCallItemView,
    before: Seq<CollabAgentRefView>,
    agent: CollabAgentRefView,
    after: Seq<CollabAgentRefView>,
)
    requires
        item.receiver_agents == before.push(agent) + after,
        forall|i: int|
            0 <= i < before.len() ==> (#[trigger] before[i]).thread_id != agent.thread_id,
    ensures
        item.receiver_agent(agent.thread_id) == Some(agent),
{
    law_first_agent_of_a_thread(before, agent, after);
}

/// A call holds no agent for a thread that none of its agents is listed for.
pub proof fn law_no_agent_of_a_call(item: CollabAgentToolCallItemView, thread_id: ThreadId)
    requires
        forall|i: int|
            0 <= i < item.receiver_agents.len() ==> (#[trigger] item.receiver_agents[i]).thread_id
                != thread_id,
    ensures
        item.receiver_agent(thread_id) is None,
{
    let agent = CollabAgentRefView { thread_id, agent_nickname: None, agent_role: None };
    law_first_agent_of_a_thread(item.receiver_agents, agent, seq![]);
}

} // verus!
