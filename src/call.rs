use vstd::prelude::*;

use crate::engine::{
    export_outcome, exported_files, snapshot_contents, snapshot_outcome, zoom_before_snapshot,
    CallError, EngineResponse, ModelingCommand, SourceRange, ZOOM_PADDING_HUNDREDTHS,
};
use crate::formats::{ExportFile, FileExportFormat, ImageFormat};
use crate::output_format::{descriptor_of, get_output_format};
use crate::session::{session_settings, settings_outcome, SessionConfig, SessionSettings};
use kittycad_modeling_cmds::units::UnitLength;

verus! {

/// The caller-facing operation that one call performs.
#[derive(Clone, Copy, Debug, PartialEq, Eq)]
pub enum Workflow {
    /// Run the program and report success.
    Execute,
    /// Run the program, zoom to fit, and render an image.
    Snapshot { format: ImageFormat },
    /// Run the program and export the scene to files.
    Export { format: FileExportFormat },
}

/// Where a call stands.
#[derive(Clone, Debug, PartialEq, Eq)]
pub enum Phase {
    /// Waiting for the front end to parse the program. The configuration is
    /// kept until a session is needed.
    Parsing { config: SessionConfig },
    /// Waiting for the session to open.
    Connecting,
    /// Waiting for the program to run to completion.
    Executing,
    /// Waiting for the engine to acknowledge the zoom-to-fit.
    AwaitingZoom,
    /// Waiting for the engine's snapshot.
    AwaitingSnapshot,
    /// Waiting for the engine's exported files.
    AwaitingExport,
    /// The call has returned its result.
    Returned,
    /// The call has failed.
    Failed,
}

/// The state of one call.
#[derive(Debug, PartialEq, Eq)]
pub struct Call {
    pub workflow: Workflow,
    pub unit: UnitLength,
    pub phase: Phase,
}

/// What the outside world reports back to a call.
#[derive(Clone, Debug, PartialEq, Eq)]
pub enum Event {
    /// The program parsed.
    Parsed,
    /// The program did not parse.
    ParseFailed { message: String, range: SourceRange },
    /// The session is open.
    Connected,
    /// The program ran, and every command it implied was acknowledged.
    Executed,
    /// The engine rejected a command that the program implied.
    ExecutionFailed { message: String, range: SourceRange },
    /// The engine answered the command last sent.
    Replied { response: EngineResponse },
    /// The connection failed or timed out.
    TransportFailed { message: String },
}

/// What a call returns on success.
#[derive(Clone, Debug, PartialEq, Eq)]
pub enum CallOutput {
    /// The program ran.
    Executed,
    /// The rendered image.
    Image { contents: Vec<u8> },
    /// The exported files.
    Files { files: Vec<ExportFile> },
}

/// What a call asks the outside world to do next.
#[derive(Debug, PartialEq, Eq)]
pub enum Action {
    /// Parse the program.
    Parse,
    /// Open a session with these settings, for a model in this unit.
    Connect { settings: SessionSettings, unit: UnitLength },
    /// Run the parsed program in the session.
    Execute,
    /// Send a command to the engine and report its answer.
    Send { command: ModelingCommand },
    /// Hand this result to the caller.
    Return { output: CallOutput },
    /// Hand this error to the caller.
    Fail { error: CallError },
    /// Nothing: the call is over.
    Idle,
}

/// A call that has returned or failed.
pub open spec fn is_finished(phase: Phase) -> bool {
    phase is Returned || phase is Failed
}

/// An action that reaches the network.
pub open spec fn is_network(action: Action) -> bool {
    action is Connect || action is Send
}

/// A new call, waiting to parse.
pub open spec fn initial_call(workflow: Workflow, unit: UnitLength, config: SessionConfig) -> Call {
    Call { workflow, unit, phase: Phase::Parsing { config } }
}

/// The call moved to `phase`.
pub open spec fn moved(call: Call, phase: Phase) -> Call {
    Call { workflow: call.workflow, unit: call.unit, phase }
}

/// The call failed with `error`.
pub open spec fn failed_with(call: Call, error: CallError) -> (Call, Action) {
    (moved(call, Phase::Failed), Action::Fail { error })
}

/// Where a program that ran leads: straight to the result for a plain
/// execution, to the zoom-to-fit for a snapshot, to the export for an export.
pub open spec fn after_execution(call: Call) -> (Call, Action) {
    match call.workflow {
        Workflow::Execute => (
            moved(call, Phase::Returned),
            Action::Return { output: CallOutput::Executed },
        ),
        Workflow::Snapshot { .. } => (
            moved(call, Phase::AwaitingZoom),
            Action::Send { command: zoom_before_snapshot() },
        ),
        Workflow::Export { format } => (
            moved(call, Phase::AwaitingExport),
            Action::Send {
                command: ModelingCommand::Export { format: descriptor_of(format, call.unit) },
            },
        ),
    }
}

/// The next state and action of `call` on `event`. A finished call stays as
/// it is and does nothing; an event that the phase does not wait for fails
/// the call.
pub open spec fn next_of(call: Call, event: Event) -> (Call, Action) {
    match call.phase {
        Phase::Parsing { config } => match event {
            Event::Parsed => match settings_outcome(config) {
                Ok(settings) => (
                    moved(call, Phase::Connecting),
                    Action::Connect { settings, unit: call.unit },
                ),
                Err(error) => failed_with(call, error),
            },
            Event::ParseFailed { message, range } => failed_with(
                call,
                CallError::Parse { message, range },
            ),
            _ => failed_with(call, CallError::UnexpectedEvent),
        },
        Phase::Connecting => match event {
            Event::Connected => (moved(call, Phase::Executing), Action::Execute),
            Event::TransportFailed { message } => failed_with(
                call,
                CallError::Transport { message },
            ),
            _ => failed_with(call, CallError::UnexpectedEvent),
        },
        Phase::Executing => match event {
            Event::Executed => after_execution(call),
            Event::ExecutionFailed { message, range } => failed_with(
                call,
                CallError::Execution { message, range },
            ),
            Event::TransportFailed { message } => failed_with(
                call,
                CallError::Transport { message },
            ),
            _ => failed_with(call, CallError::UnexpectedEvent),
        },
        Phase::AwaitingZoom => match event {
            Event::Replied { .. } => match call.workflow {
                Workflow::Snapshot { format } => (
                    moved(call, Phase::AwaitingSnapshot),
                    Action::Send { command: ModelingCommand::TakeSnapshot { format } },
                ),
                _ => failed_with(call, CallError::UnexpectedEvent),
            },
            Event::TransportFailed { message } => failed_with(
                call,
                CallError::Transport { message },
            ),
            _ => failed_with(call, CallError::UnexpectedEvent),
        },
        Phase::AwaitingSnapshot => match event {
            Event::Replied { response } => match snapshot_outcome(response) {
                Ok(contents) => (
                    moved(call, Phase::Returned),
                    Action::Return { output: CallOutput::Image { contents } },
                ),
                Err(error) => failed_with(call, error),
            },
            Event::TransportFailed { message } => failed_with(
                call,
                CallError::Transport { message },
            ),
            _ => failed_with(call, CallError::UnexpectedEvent),
        },
        Phase::AwaitingExport => match event {
            Event::Replied { response } => match export_outcome(response) {
                Ok(files) => (
                    moved(call, Phase::Returned),
                    Action::Return { output: CallOutput::Files { files } },
                ),
                Err(error) => failed_with(call, error),
            },
            Event::TransportFailed { message } => failed_with(
                call,
                CallError::Transport { message },
            ),
            _ => failed_with(call, CallError::UnexpectedEvent),
        },
        Phase::Returned => (call, Action::Idle),
        Phase::Failed => (call, Action::Idle),
    }
}

/// The actions a call takes on a sequence of events, one per event.
pub open spec fn actions_of(call: Call, events: Seq<Event>) -> Seq<Action>
    decreases events.len(),
{
    if events.len() == 0 {
        Seq::empty()
    } else {
        let (next, action) = next_of(call, events[0]);
        seq![action] + actions_of(next, events.drop_first())
    }
}

impl Call {
    /// Starts a call: the first thing it asks for is the parse.
    pub fn start(workflow: Workflow, unit: UnitLength, config: SessionConfig) -> (r: (
        Call,
        Action,
    ))
        ensures
            r.0 == initial_call(workflow, unit, config),
            r.1 == Action::Parse,
    {
        (Call { workflow, unit, phase: Phase::Parsing { config } }, Action::Parse)
    }

    /// Whether the call has returned or failed.
    pub fn is_finished(&self) -> (r: bool)
        ensures
            r == is_finished(self.phase),
    {
        match self.phase {
            Phase::Returned | Phase::Failed => true,
            _ => false,
        }
    }

    fn moved_to(workflow: Workflow, unit: UnitLength, phase: Phase) -> (r: Call)
        ensures
            r == (Call { workflow, unit, phase }),
    {
        Call { workflow, unit, phase }
    }

    /// Takes one event and decides the next state and the next action.
    pub fn step(self, event: Event) -> (r: (Call, Action))
        ensures
            r == next_of(self, event),
    {
        let workflow = self.workflow;
        let unit = self.unit;
        let unexpected = (
            Call::moved_to(workflow, unit, Phase::Failed),
            Action::Fail { error: CallError::UnexpectedEvent },
        );
        match self.phase {
            Phase::Parsing { config } => match event {
                Event::Parsed => match session_settings(config) {
                    Ok(settings) => (
                        Call::moved_to(workflow, unit, Phase::Connecting),
                        Action::Connect { settings, unit },
                    ),
                    Err(error) => (
                        Call::moved_to(workflow, unit, Phase::Failed),
                        Action::Fail { error },
                    ),
                },
                Event::ParseFailed { message, range } => (
                    Call::moved_to(workflow, unit, Phase::Failed),
                    Action::Fail { error: CallError::Parse { message, range } },
                ),
                _ => unexpected,
            },
            Phase::Connecting => match event {
                Event::Connected => (
                    Call::moved_to(workflow, unit, Phase::Executing),
                    Action::Execute,
                ),
                Event::TransportFailed { message } => (
                    Call::moved_to(workflow, unit, Phase::Failed),
                    Action::Fail { error: CallError::Transport { message } },
                ),
                _ => unexpected,
            },
            Phase::Executing => match event {
                Event::Executed => match workflow {
                    Workflow::Execute => (
                        Call::moved_to(workflow, unit, Phase::Returned),
                        Action::Return { output: CallOutput::Executed },
                    ),
                    Workflow::Snapshot { .. } => (
                        Call::moved_to(workflow, unit, Phase::AwaitingZoom),
                        Action::Send {
                            command: ModelingCommand::ZoomToFit {
                                padding_hundredths: ZOOM_PADDING_HUNDREDTHS,
                                animated: false,
                            },
                        },
                    ),
                    Workflow::Export { format } => (
                        Call::moved_to(workflow, unit, Phase::AwaitingExport),
                        Action::Send {
                            command: ModelingCommand::Export {
                                format: get_output_format(&format, unit),
                            },
                        },
                    ),
                },
                Event::ExecutionFailed { message, range } => (
                    Call::moved_to(workflow, unit, Phase::Failed),
                    Action::Fail { error: CallError::Execution { message, range } },
                ),
                Event::TransportFailed { message } => (
                    Call::moved_to(workflow, unit, Phase::Failed),
                    Action::Fail { error: CallError::Transport { message } },
                ),
                _ => unexpected,
            },
            Phase::AwaitingZoom => match event {
                Event::Replied { .. } => match workflow {
                    Workflow::Snapshot { format } => (
                        Call::moved_to(workflow, unit, Phase::AwaitingSnapshot),
                        Action::Send { command: ModelingCommand::TakeSnapshot { format } },
                    ),
                    _ => unexpected,
                },
                Event::TransportFailed { message } => (
                    Call::moved_to(workflow, unit, Phase::Failed),
                    Action::Fail { error: CallError::Transport { message } },
                ),
                _ => unexpected,
            },
            Phase::AwaitingSnapshot => match event {
                Event::Replied { response } => match snapshot_contents(response) {
                    Ok(contents) => (
                        Call::moved_to(workflow, unit, Phase::Returned),
                        Action::Return { output: CallOutput::Image { contents } },
                    ),
                    Err(error) => (
                        Call::moved_to(workflow, unit, Phase::Failed),
                        Action::Fail { error },
                    ),
                },
                Event::TransportFailed { message } => (
                    Call::moved_to(workflow, unit, Phase::Failed),
                    Action::Fail { error: CallError::Transport { message } },
                ),
                _ => unexpected,
            },
            Phase::AwaitingExport => match event {
                Event::Replied { response } => match exported_files(response) {
                    Ok(files) => (
                        Call::moved_to(workflow, unit, Phase::Returned),
                        Action::Return { output: CallOutput::Files { files } },
                    ),
                    Err(error) => (
                        Call::moved_to(workflow, unit, Phase::Failed),
                        Action::Fail { error },
                    ),
                },
                Event::TransportFailed { message } => (
                    Call::moved_to(workflow, unit, Phase::Failed),
                    Action::Fail { error: CallError::Transport { message } },
                ),
                _ => unexpected,
            },
            Phase::Returned => (Call::moved_to(workflow, unit, Phase::Returned), Action::Idle),
            Phase::Failed => (Call::moved_to(workflow, unit, Phase::Failed), Action::Idle),
        }
    }
}

/// A finished call does nothing more: whatever events follow, each action
/// is `Idle`, so it never issues another command.
pub proof fn lemma_finished_call_is_idle(call: Call, events: Seq<Event>)
    requires
        is_finished(call.phase),
    ensures
        actions_of(call, events).len() == events.len(),
        forall|i: int| 0 <= i < events.len() ==> actions_of(call, events)[i] == Action::Idle,
    decreases events.len(),
{
    if events.len() > 0 {
        let rest = events.drop_first();
        lemma_finished_call_is_idle(call, rest);
        assert(next_of(call, events[0]) == (call, Action::Idle));
        assert(actions_of(call, events) == seq![Action::Idle] + actions_of(call, rest));
    }
}

/// A program whose run the engine rejects ends the call with an execution
/// error that carries the failing source range, and after that failure the
/// call issues no further command, whatever events follow.
pub proof fn lemma_execution_failure_is_final(
    call: Call,
    message: String,
    range: SourceRange,
    later: Seq<Event>,
)
    requires
        call.phase is Executing,
    ensures
        ({
            let events = seq![Event::ExecutionFailed { message, range }] + later;
            let actions = actions_of(call, events);
            &&& actions.len() == events.len()
            &&& actions[0] == (Action::Fail {
                error: CallError::Execution { message, range },
            })
            &&& forall|i: int| 1 <= i < events.len() ==> actions[i] == Action::Idle
        }),
{
    let events = seq![Event::ExecutionFailed { message, range }] + later;
    let next = moved(call, Phase::Failed);
    assert(events.drop_first() == later);
    lemma_finished_call_is_idle(next, later);
    assert(actions_of(call, events) == seq![
        Action::Fail { error: CallError::Execution { message, range } },
    ] + actions_of(next, later));
}

/// Without an API token a call never reaches the network: whatever events
/// arrive, no action opens a session or sends a command, and once the
/// program parses the call fails with the missing credential.
pub proof fn lemma_missing_token_stays_offline(
    workflow: Workflow,
    unit: UnitLength,
    config: SessionConfig,
    events: Seq<Event>,
)
    requires
        config.api_token is None,
    ensures
        ({
            let actions = actions_of(initial_call(workflow, unit, config), events);
            &&& actions.len() == events.len()
            &&& forall|i: int| 0 <= i < actions.len() ==> !is_network(#[trigger] actions[i])
            &&& events.len() > 0 && events[0] == Event::Parsed ==> actions[0] == (Action::Fail {
                error: CallError::MissingCredential,
            })
        }),
{
    if events.len() > 0 {
        let call = initial_call(workflow, unit, config);
        let (next, action) = next_of(call, events[0]);
        assert(next.phase is Failed);
        assert(action is Fail);
        lemma_finished_call_is_idle(next, events.drop_first());
        assert(actions_of(call, events) == seq![action] + actions_of(next, events.drop_first()));
    }
}

/// A snapshot call that gets any reply other than a snapshot fails with a
/// protocol mismatch that carries the reply, never with an empty image; an
/// export call that gets any reply other than files fails the same way.
pub proof fn lemma_reply_shape_checked(call: Call, response: EngineResponse)
    ensures
        call.phase is AwaitingSnapshot && !(response is Snapshot) ==> next_of(
            call,
            Event::Replied { response },
        ) == failed_with(call, CallError::UnexpectedResponse { response }),
        call.phase is AwaitingExport && !(response is Export) ==> next_of(
            call,
            Event::Replied { response },
        ) == failed_with(call, CallError::UnexpectedResponse { response }),
{
}

} // verus!
