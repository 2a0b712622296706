//! What else happens in a turn: sub-agents, searches, images, pauses, patches and compaction.

use std::collections::HashMap;
use std::path::PathBuf;

use vstd::prelude::*;

use crate::duplicate::Duplicate;
use crate::ids::random_uuid;
use crate::models::{FileChange, ThreadId, WebSearchAction, WebSearchActionView};
use crate::paths::{AbsolutePathBuf, AgentPath, PathUri};
use crate::protocol::{
    ContextCompactedEvent, EventMsg, EventMsgView, ImageGenerationEndEvent,
    ImageGenerationEndEventView, PatchApplyBeginEvent, PatchApplyBeginEventView,
    PatchApplyEndEvent, PatchApplyEndEventView, PatchApplyStatus, SubAgentActivityEvent,
    SubAgentActivityEventView, SubAgentActivityKind, ViewImageToolCallEvent,
    ViewImageToolCallEventView, WebSearchEndEvent, WebSearchEndEventView,
};
use crate::text::copy_or_empty;

verus! {

/// Something that happened to a sub-agent.
#[derive(Clone, Debug, PartialEq, Eq)]
pub struct SubAgentActivityItem {
    pub id: String,
    pub kind: SubAgentActivityKind,
    pub agent_thread_id: ThreadId,
    pub agent_path: AgentPath,
}

/// What `SubAgentActivityItem` stands for.
#[verifier::ext_equal]
pub struct SubAgentActivityItemView {
    pub id: Seq<char>,
    pub kind: SubAgentActivityKind,
    pub agent_thread_id: ThreadId,
    pub agent_path: Seq<char>,
}

impl DeepView for SubAgentActivityItem {
    type V = SubAgentActivityItemView;

    open spec fn deep_view(&self) -> SubAgentActivityItemView {
        SubAgentActivityItemView {
            id: self.id@,
            kind: self.kind,
            agent_thread_id: self.agent_thread_id,
            agent_path: self.agent_path.deep_view(),
        }
    }
}

/// A web search.
#[derive(Clone, Debug, PartialEq)]
pub struct WebSearchItem {
    pub id: String,
    pub query: String,
    pub action: WebSearchAction,
}

/// What `WebSearchItem` stands for.
#[verifier::ext_equal]
pub struct WebSearchItemView {
    pub id: Seq<char>,
    pub query: Seq<char>,
    pub action: WebSearchActionView,
}

impl DeepView for WebSearchItem {
    type V = WebSearchItemView;

    open spec fn deep_view(&self) -> WebSearchItemView {
        WebSearchItemView {
            id: self.id@,
            query: self.query@,
            action: self.action.deep_view(),
        }
    }
}

/// A look at an image.
#[derive(Clone, Debug, PartialEq)]
pub struct ImageViewItem {
    pub id: String,
    /// The path in the execution environment that was selected.
    pub path: PathUri,
}

/// What `ImageViewItem` stands for.
#[verifier::ext_equal]
pub struct ImageViewItemView {
    pub id: Seq<char>,
    pub path: Seq<char>,
}

impl DeepView for ImageViewItem {
    type V = ImageViewItemView;

    open spec fn deep_view(&self) -> ImageViewItemView {
        ImageViewItemView {
            id: self.id@,
            path: self.path.deep_view(),
        }
    }
}

/// A pause.
#[derive(Clone, Debug, PartialEq, Eq)]
pub struct SleepItem {
    pub id: String,
    pub duration_ms: u64,
}

/// What `SleepItem` stands for.
#[verifier::ext_equal]
pub struct SleepItemView {
    pub id: Seq<char>,
    pub duration_ms: u64,
}

impl DeepView for SleepItem {
    type V = SleepItemView;

    open spec fn deep_view(&self) -> SleepItemView {
        SleepItemView {
            id: self.id@,
            duration_ms: self.duration_ms,
        }
    }
}

/// The generation of an image.
#[derive(Clone, Debug, PartialEq)]
pub struct ImageGenerationItem {
    pub id: String,
    pub status: String,
    pub revised_prompt: Option<String>,
    pub result: String,
    pub saved_path: Option<AbsolutePathBuf>,
}

/// What `ImageGenerationItem` stands for.
#[verifier::ext_equal]
pub struct ImageGenerationItemView {
    pub id: Seq<char>,
    pub status: Seq<char>,
    pub revised_prompt: Option<Seq<char>>,
    pub result: Seq<char>,
    pub saved_path: Option<PathBuf>,
}

impl DeepView for ImageGenerationItem {
    type V = ImageGenerationItemView;

    open spec fn deep_view(&self) -> ImageGenerationItemView {
        ImageGenerationItemView {
            id: self.id@,
            status: self.status@,
            revised_prompt: self.revised_prompt.deep_view(),
            result: self.result@,
            saved_path: self.saved_path.deep_view(),
        }
    }
}

/// Changes to files.
#[derive(Clone, Debug, PartialEq)]
pub struct FileChangeItem {
    pub id: String,
    pub changes: HashMap<PathBuf, FileChange>,
    pub status: Option<PatchApplyStatus>,
    pub auto_approved: Option<bool>,
    pub stdout: Option<String>,
    pub stderr: Option<String>,
}

/// What `FileChangeItem` stands for.
#[verifier::ext_equal]
pub struct FileChangeItemView {
    pub id: Seq<char>,
    pub changes: Map<PathBuf, FileChange>,
    pub status: Option<PatchApplyStatus>,
    pub auto_approved: Option<bool>,
    pub stdout: Option<Seq<char>>,
    pub stderr: Option<Seq<char>>,
}

impl DeepView for FileChangeItem {
    type V = FileChangeItemView;

    open spec fn deep_view(&self) -> FileChangeItemView {
        FileChangeItemView {
            id: self.id@,
            changes: self.changes@,
            status: self.status.deep_view(),
            auto_approved: self.auto_approved.deep_view(),
            stdout: self.stdout.deep_view(),
            stderr: self.stderr.deep_view(),
        }
    }
}

/// A compaction of the context.
#[derive(Clone, Debug, PartialEq)]
pub struct ContextCompactionItem {
    pub id: String,
}

/// What `ContextCompactionItem` stands for.
#[verifier::ext_equal]
pub struct ContextCompactionItemView {
    pub id: Seq<char>,
}

impl DeepView for ContextCompactionItem {
    type V = ContextCompactionItemView;

    open spec fn deep_view(&self) -> ContextCompactionItemView {
        ContextCompactionItemView {
            id: self.id@,
        }
    }
}

impl SubAgentActivityItemView {
    /// The activity that an event stands for.
    pub open spec fn from_event(event: SubAgentActivityEventView) -> SubAgentActivityItemView {
        SubAgentActivityItemView {
            id: event.event_id,
            kind: event.kind,
            agent_thread_id: event.agent_thread_id,
            agent_path: event.agent_path,
        }
    }

    /// The event that reports the activity.
    pub open spec fn legacy_event(self, occurred_at_ms: i64) -> EventMsgView {
        EventMsgView::SubAgentActivity(
            SubAgentActivityEventView {
                event_id: self.id,
                occurred_at_ms,
                agent_thread_id: self.agent_thread_id,
                agent_path: self.agent_path,
                kind: self.kind,
            },
        )
    }
}

impl SubAgentActivityItem {
    /// Makes the activity that an event stands for.
    pub fn from_sub_agent_activity_event(event: SubAgentActivityEvent) -> (item:
        SubAgentActivityItem)
        ensures
            item.deep_view() == SubAgentActivityItemView::from_event(event.deep_view()),
    {
        SubAgentActivityItem {
            id: event.event_id,
            kind: event.kind,
            agent_thread_id: event.agent_thread_id,
            agent_path: event.agent_path,
        }
    }

    /// Makes the event that reports the activity.
    pub fn as_legacy_event(&self, occurred_at_ms: i64) -> (event: EventMsg)
        ensures
            event.deep_view() == self.deep_view().legacy_event(occurred_at_ms),
    {
        EventMsg::SubAgentActivity(
            SubAgentActivityEvent {
                event_id: self.id.clone(),
                occurred_at_ms,
                agent_thread_id: self.agent_thread_id,
                agent_path: self.agent_path.duplicate(),
                kind: self.kind,
            },
        )
    }
}

/// The event that reports an activity is given back by the activity that it stands for.
pub proof fn law_activity_event_round_trip(event: SubAgentActivityEventView)
    ensures
        SubAgentActivityItemView::from_event(event).legacy_event(event.occurred_at_ms)
            == EventMsgView::SubAgentActivity(event),
{
}

impl WebSearchItemView {
    /// The event that reports the search.
    pub open spec fn legacy_event(self) -> EventMsgView {
        EventMsgView::WebSearchEnd(
            WebSearchEndEventView { call_id: self.id, query: self.query, action: self.action },
        )
    }
}

impl WebSearchItem {
    /// Makes the event that reports the search.
    pub fn as_legacy_event(&self) -> (event: EventMsg)
        ensures
            event.deep_view() == self.deep_view().legacy_event(),
    {
        EventMsg::WebSearchEnd(
            WebSearchEndEvent {
                call_id: self.id.clone(),
                query: self.query.clone(),
                action: self.action.duplicate(),
            },
        )
    }
}

impl ImageViewItemView {
    /// The event that reports the look at the image.
    pub open spec fn legacy_event(self) -> EventMsgView {
        EventMsgView::ViewImageToolCall(
            ViewImageToolCallEventView { call_id: self.id, path: self.path },
        )
    }
}

impl ImageViewItem {
    /// Makes the event that reports the look at the image.
    pub fn as_legacy_event(&self) -> (event: EventMsg)
        ensures
            event.deep_view() == self.deep_view().legacy_event(),
    {
        EventMsg::ViewImageToolCall(
            ViewImageToolCallEvent { call_id: self.id.clone(), path: self.path.duplicate() },
        )
    }
}

impl ImageGenerationItemView {
    /// The event that reports the generation of the image.
    pub open spec fn legacy_event(self) -> EventMsgView {
        EventMsgView::ImageGenerationEnd(
            ImageGenerationEndEventView {
                call_id: self.id,
                status: self.status,
                revised_prompt: self.revised_prompt,
                result: self.result,
                saved_path: self.saved_path,
            },
        )
    }
}

impl ImageGenerationItem {
    /// Makes the event that reports the generation of the image.
    pub fn as_legacy_event(&self) -> (event: EventMsg)
        ensures
            event.deep_view() == self.deep_view().legacy_event(),
    {
        EventMsg::ImageGenerationEnd(
            ImageGenerationEndEvent {
                call_id: self.id.clone(),
                status: self.status.clone(),
                revised_prompt: self.revised_prompt.duplicate(),
                result: self.result.clone(),
                saved_path: self.saved_path.duplicate(),
            },
        )
    }
}

impl FileChangeItemView {
    /// The event that announces the changes. Without a word on it they are not approved.
    pub open spec fn legacy_begin_event(self, turn_id: Seq<char>) -> EventMsgView {
        EventMsgView::PatchApplyBegin(
            PatchApplyBeginEventView {
                call_id: self.id,
                turn_id,
                auto_approved: self.auto_approved == Some(true),
                changes: self.changes,
            },
        )
    }

    /// The event that reports what became of the changes. There is none before that is known.
    pub open spec fn legacy_end_event(self, turn_id: Seq<char>) -> Option<EventMsgView> {
        match self.status {
            Some(status) => Some(
                EventMsgView::PatchApplyEnd(
                    PatchApplyEndEventView {
                        call_id: self.id,
                        turn_id,
                        stdout: crate::text::text_or_empty(self.stdout),
                        stderr: crate::text::text_or_empty(self.stderr),
                        success: status == PatchApplyStatus::Completed,
                        changes: self.changes,
                        status,
                    },
                ),
            ),
            None => None,
        }
    }
}

impl FileChangeItem {
    /// Makes the event that announces the changes.
    pub fn as_legacy_begin_event(&self, turn_id: String) -> (event: EventMsg)
        ensures
            event.deep_view() == self.deep_view().legacy_begin_event(turn_id@),
    {
        EventMsg::PatchApplyBegin(
            PatchApplyBeginEvent {
                call_id: self.id.clone(),
                turn_id,
                auto_approved: match self.auto_approved {
                    Some(approved) => approved,
                    None => false,
                },
                changes: self.changes.clone(),
            },
        )
    }

    /// Makes the event that reports what became of the changes, if that is known.
    pub fn as_legacy_end_event(&self, turn_id: String) -> (event: Option<EventMsg>)
        ensures
            event.deep_view() == self.deep_view().legacy_end_event(turn_id@),
    {
        let status = match self.status {
            Some(status) => status,
            None => return None,
        };
        Some(
            EventMsg::PatchApplyEnd(
                PatchApplyEndEvent {
                    call_id: self.id.clone(),
                    turn_id,
                    stdout: copy_or_empty(&self.stdout),
                    stderr: copy_or_empty(&self.stderr),
                    success: status == PatchApplyStatus::Completed,
                    changes: self.changes.clone(),
                    status,
                },
            ),
        )
    }
}

impl ContextCompactionItem {
    /// Makes a compaction with an identity of its own.
    pub fn new() -> (item: ContextCompactionItem)
        ensures
            crate::ids::is_uuid_v4(item.id@),
    {
        ContextCompactionItem { id: random_uuid() }
    }

    /// Makes the event that reports the compaction.
    pub fn as_legacy_event(&self) -> (event: EventMsg)
        ensures
            event.deep_view() == EventMsgView::ContextCompacted(ContextCompactedEvent {  }),
    {
        EventMsg::ContextCompacted(ContextCompactedEvent {  })
    }
}

impl Default for ContextCompactionItem {
    /// Makes a compaction with an identity of its own.
    fn default() -> (item: ContextCompactionItem)
        ensures
            crate::ids::is_uuid_v4(item.id@),
    {
        ContextCompactionItem::new()
    }
}

} // verus!
