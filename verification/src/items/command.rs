//! Commands that are run in a turn.

use vstd::prelude::*;

use crate::duplicate::Duplicate;
use crate::duration::Duration;
use crate::models::{ParsedCommand, ParsedCommandView};
use crate::paths::PathUri;
use crate::protocol::{
    EventMsg, EventMsgView, ExecCommandBeginEvent, ExecCommandBeginEventView, ExecCommandEndEvent,
    ExecCommandEndEventView, ExecCommandSource, ExecCommandStatus,
};
use crate::text::copy_or_empty;

verus! {

/// How far a command has come.
#[derive(Clone, Copy, Debug, PartialEq, Eq, Structural)]
pub enum CommandExecutionStatus {
    InProgress,
    Completed,
    Failed,
    Declined,
}

/// The status of a command that ended with `status`.
pub open spec fn ended_status(status: ExecCommandStatus) -> CommandExecutionStatus {
    match status {
        ExecCommandStatus::Completed => CommandExecutionStatus::Completed,
        ExecCommandStatus::Failed => CommandExecutionStatus::Failed,
        ExecCommandStatus::Declined => CommandExecutionStatus::Declined,
    }
}

impl From<ExecCommandStatus> for CommandExecutionStatus {
    fn from(value: ExecCommandStatus) -> (status: Self) {
        match value {
            ExecCommandStatus::Completed => CommandExecutionStatus::Completed,
            ExecCommandStatus::Failed => CommandExecutionStatus::Failed,
            ExecCommandStatus::Declined => CommandExecutionStatus::Declined,
        }
    }
}

impl vstd::std_specs::convert::FromSpecImpl<ExecCommandStatus> for CommandExecutionStatus {
    open spec fn obeys_from_spec() -> bool {
        true
    }

    open spec fn from_spec(value: ExecCommandStatus) -> CommandExecutionStatus {
        ended_status(value)
    }
}

/// A command that is run in a turn.
#[derive(Clone, Debug, PartialEq)]
pub struct CommandExecutionItem {
    pub id: String,
    pub process_id: Option<String>,
    pub command: Vec<String>,
    pub cwd: PathUri,
    pub parsed_cmd: Vec<ParsedCommand>,
    pub source: ExecCommandSource,
    pub interaction_input: Option<String>,
    pub status: CommandExecutionStatus,
    pub stdout: Option<String>,
    pub stderr: Option<String>,
    pub aggregated_output: Option<String>,
    pub exit_code: Option<i32>,
    pub duration: Option<Duration>,
    pub formatted_output: Option<String>,
}

/// What `CommandExecutionItem` stands for.
#[verifier::ext_equal]
pub struct CommandExecutionItemView {
    pub id: Seq<char>,
    pub process_id: Option<Seq<char>>,
    pub command: Seq<Seq<char>>,
    pub cwd: Seq<char>,
    pub parsed_cmd: Seq<ParsedCommandView>,
    pub source: ExecCommandSource,
    pub interaction_input: Option<Seq<char>>,
    pub status: CommandExecutionStatus,
    pub stdout: Option<Seq<char>>,
    pub stderr: Option<Seq<char>>,
    pub aggregated_output: Option<Seq<char>>,
    pub exit_code: Option<i32>,
    pub duration: Option<nat>,
    pub formatted_output: Option<Seq<char>>,
}

impl DeepView for CommandExecutionItem {
    type V = CommandExecutionItemView;

    open spec fn deep_view(&self) -> CommandExecutionItemView {
        CommandExecutionItemView {
            id: self.id@,
            process_id: self.process_id.deep_view(),
            command: self.command.deep_view(),
            cwd: self.cwd.deep_view(),
            parsed_cmd: self.parsed_cmd.deep_view(),
            source: self.source,
            interaction_input: self.interaction_input.deep_view(),
            status: self.status,
            stdout: self.stdout.deep_view(),
            stderr: self.stderr.deep_view(),
            aggregated_output: self.aggregated_output.deep_view(),
            exit_code: self.exit_code.deep_view(),
            duration: self.duration.deep_view(),
            formatted_output: self.formatted_output.deep_view(),
        }
    }
}

impl CommandExecutionItemView {
    /// The command that an announced execution stands for.
    pub open spec fn from_begin(event: ExecCommandBeginEventView) -> CommandExecutionItemView {
        CommandExecutionItemView {
            id: event.call_id,
            process_id: event.process_id,
            command: event.command,
            cwd: event.cwd,
            parsed_cmd: event.parsed_cmd,
            source: event.source,
            interaction_input: event.interaction_input,
            status: CommandExecutionStatus::InProgress,
            stdout: None,
            stderr: None,
            aggregated_output: None,
            exit_code: None,
            duration: None,
            formatted_output: None,
        }
    }

    /// The command that a reported execution stands for.
    pub open spec fn from_end(event: ExecCommandEndEventView) -> CommandExecutionItemView {
        CommandExecutionItemView {
            id: event.call_id,
            process_id: event.process_id,
            command: event.command,
            cwd: event.cwd,
            parsed_cmd: event.parsed_cmd,
            source: event.source,
            interaction_input: event.interaction_input,
            status: ended_status(event.status),
            stdout: Some(event.stdout),
            stderr: Some(event.stderr),
            aggregated_output: Some(event.aggregated_output),
            exit_code: Some(event.exit_code),
            duration: Some(event.duration),
            formatted_output: Some(event.formatted_output),
        }
    }

    /// The event that announces the command.
    pub open spec fn legacy_begin_event(self, turn_id: Seq<char>, started_at_ms: i64) ->
        EventMsgView {
        EventMsgView::ExecCommandBegin(
            ExecCommandBeginEventView {
                call_id: self.id,
                process_id: self.process_id,
                turn_id,
                started_at_ms,
                command: self.command,
                cwd: self.cwd,
                parsed_cmd: self.parsed_cmd,
                source: self.source,
                interaction_input: self.interaction_input,
            },
        )
    }

    /// How the command ended, unless it is in progress.
    pub open spec fn end_status(self) -> Option<ExecCommandStatus> {
        match self.status {
            CommandExecutionStatus::InProgress => None,
            CommandExecutionStatus::Completed => Some(ExecCommandStatus::Completed),
            CommandExecutionStatus::Failed => Some(ExecCommandStatus::Failed),
            CommandExecutionStatus::Declined => Some(ExecCommandStatus::Declined),
        }
    }

    /// The event that reports how the command ended. There is none while it is in progress.
    pub open spec fn legacy_end_event(self, turn_id: Seq<char>, completed_at_ms: i64) -> Option<
        EventMsgView,
    > {
        match self.end_status() {
            Some(status) => Some(
                EventMsgView::ExecCommandEnd(
                    ExecCommandEndEventView {
                        call_id: self.id,
                        process_id: self.process_id,
                        turn_id,
                        completed_at_ms,
                        command: self.command,
                        cwd: self.cwd,
                        parsed_cmd: self.parsed_cmd,
                        source: self.source,
                        interaction_input: self.interaction_input,
                        stdout: crate::text::text_or_empty(self.stdout),
                        stderr: crate::text::text_or_empty(self.stderr),
                        aggregated_output: crate::text::text_or_empty(self.aggregated_output),
                        exit_code: match self.exit_code {
                            Some(code) => code,
                            None => 0,
                        },
                        duration: match self.duration {
                            Some(span) => span,
                            None => 0,
                        },
                        formatted_output: crate::text::text_or_empty(self.formatted_output),
                        status,
                    },
                ),
            ),
            None => None,
        }
    }
}

impl CommandExecutionItem {
    /// Makes the command that an announced execution stands for.
    pub fn from_exec_command_begin_event(event: ExecCommandBeginEvent) -> (item:
        CommandExecutionItem)
        ensures
            item.deep_view() == CommandExecutionItemView::from_begin(event.deep_view()),
    {
        CommandExecutionItem {
            id: event.call_id,
            process_id: event.process_id,
            command: event.command,
            cwd: event.cwd,
            parsed_cmd: event.parsed_cmd,
            source: event.source,
            interaction_input: event.interaction_input,
            status: CommandExecutionStatus::InProgress,
            stdout: None,
            stderr: None,
            aggregated_output: None,
            exit_code: None,
            duration: None,
            formatted_output: None,
        }
    }

    /// Makes the command that a reported execution stands for.
    pub fn from_exec_command_end_event(event: ExecCommandEndEvent) -> (item: CommandExecutionItem)
        ensures
            item.deep_view() == CommandExecutionItemView::from_end(event.deep_view()),
    {
        CommandExecutionItem {
            id: event.call_id,
            process_id: event.process_id,
            command: event.command,
            cwd: event.cwd,
            parsed_cmd: event.parsed_cmd,
            source: event.source,
            interaction_input: event.interaction_input,
            status: CommandExecutionStatus::from(event.status),
            stdout: Some(event.stdout),
            stderr: Some(event.stderr),
            aggregated_output: Some(event.aggregated_output),
            exit_code: Some(event.exit_code),
            duration: Some(event.duration),
            formatted_output: Some(event.formatted_output),
        }
    }

    /// Makes the event that announces the command.
    pub fn as_legacy_begin_event(&self, turn_id: String, started_at_ms: i64) -> (event: EventMsg)
        ensures
            event.deep_view() == self.deep_view().legacy_begin_event(turn_id@, started_at_ms),
    {
        EventMsg::ExecCommandBegin(
            ExecCommandBeginEvent {
                call_id: self.id.clone(),
                process_id: self.process_id.duplicate(),
                turn_id,
                started_at_ms,
                command: self.command.duplicate(),
                cwd: self.cwd.duplicate(),
                parsed_cmd: self.parsed_cmd.duplicate(),
                source: self.source,
                interaction_input: self.interaction_input.duplicate(),
            },
        )
    }

    /// Makes the event that reports how the command ended, unless it is in progress.
    pub fn as_legacy_end_event(&self, turn_id: String, completed_at_ms: i64) -> (event: Option<
        EventMsg,
    >)
        ensures
            event.deep_view() == self.deep_view().legacy_end_event(turn_id@, completed_at_ms),
    {
        let status = match self.status {
            CommandExecutionStatus::InProgress => return None,
            CommandExecutionStatus::Completed => ExecCommandStatus::Completed,
            CommandExecutionStatus::Failed => ExecCommandStatus::Failed,
            CommandExecutionStatus::Declined => ExecCommandStatus::Declined,
        };
        let exit_code: i32 = match self.exit_code {
            Some(code) => code,
            None => 0,
        };
        let duration = match self.duration {
            Some(span) => span,
            None => Duration::zero(),
        };
        Some(
            EventMsg::ExecCommandEnd(
                ExecCommandEndEvent {
                    call_id: self.id.clone(),
                    process_id: self.process_id.duplicate(),
                    turn_id,
                    completed_at_ms,
                    command: self.command.duplicate(),
                    cwd: self.cwd.duplicate(),
                    parsed_cmd: self.parsed_cmd.duplicate(),
                    source: self.source,
                    interaction_input: self.interaction_input.duplicate(),
                    stdout: copy_or_empty(&self.stdout),
                    stderr: copy_or_empty(&self.stderr),
                    aggregated_output: copy_or_empty(&self.aggregated_output),
                    exit_code,
                    duration,
                    formatted_output: copy_or_empty(&self.formatted_output),
                    status,
                },
            ),
        )
    }
}

/// The event that announces a command is given back by the command that it stands for, and that
/// command is not reported as ended.
pub proof fn law_begin_event_round_trip(
    event: ExecCommandBeginEventView,
    turn_id: Seq<char>,
    completed_at_ms: i64,
)
    ensures
        CommandExecutionItemView::from_begin(event).legacy_begin_event(
            event.turn_id,
            event.started_at_ms,
        ) == EventMsgView::ExecCommandBegin(event),
        CommandExecutionItemView::from_begin(event).legacy_end_event(turn_id, completed_at_ms)
            is None,
{
}

/// The event that reports how a command ended is given back by the command that it stands for.
pub proof fn law_end_event_round_trip(event: ExecCommandEndEventView)
    ensures
        CommandExecutionItemView::from_end(event).legacy_end_event(
            event.turn_id,
            event.completed_at_ms,
        ) == Some(EventMsgView::ExecCommandEnd(event)),
{
}

} // verus!
