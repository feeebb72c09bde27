use kcl_core::call::{Action, Call, CallOutput, Event, Phase, Workflow};
use kcl_core::engine::{CallError, EngineResponse, ModelingCommand, SourceRange};
use kcl_core::output_format::get_output_format;
use kcl_core::session::{SessionConfig, SessionSettings};
use kcl_core::{ExportFile, FileExportFormat, ImageFormat};
use kittycad_modeling_cmds::units::UnitLength;

fn with_token() -> SessionConfig {
    SessionConfig { api_token: Some("SECRET-REDACTED".to_string()), host: None }
}

fn without_token() -> SessionConfig {
    SessionConfig { api_token: None, host: None }
}

/// Starts a call and feeds it the events, collecting every action.
fn run(workflow: Workflow, unit: UnitLength, config: SessionConfig, events: Vec<Event>) -> (Call, Vec<Action>) {
    let (mut call, first) = Call::start(workflow, unit, config);
    let mut actions = vec![first];
    for event in events {
        let (next, action) = call.step(event);
        call = next;
        actions.push(action);
    }
    (call, actions)
}

fn sends(actions: &[Action]) -> usize {
    actions
        .iter()
        .filter(|a| matches!(a, Action::Send { .. } | Action::Connect { .. }))
        .count()
}

fn png_reply() -> Event {
    Event::Replied { response: EngineResponse::Snapshot { contents: vec![0x89, b'P', b'N', b'G'] } }
}

fn ack() -> Event {
    Event::Replied { response: EngineResponse::Modeling { description: "ZoomToFit".to_string() } }
}

#[test]
fn execute_returns_after_run() {
    let (call, actions) = run(
        Workflow::Execute,
        UnitLength::Millimeters,
        with_token(),
        vec![Event::Parsed, Event::Connected, Event::Executed],
    );
    assert_eq!(actions[0], Action::Parse);
    assert_eq!(
        actions[1],
        Action::Connect {
            settings: SessionSettings {
                api_token: "SECRET-REDACTED".to_string(),
                host: None,
                read_timeout_secs: 600,
                connect_timeout_secs: 60,
            },
            unit: UnitLength::Millimeters,
        }
    );
    assert_eq!(actions[2], Action::Execute);
    assert_eq!(actions[3], Action::Return { output: CallOutput::Executed });
    assert_eq!(call.phase, Phase::Returned);
    assert!(call.is_finished());
}

#[test]
fn snapshot_png_zooms_then_snaps() {
    let (call, actions) = run(
        Workflow::Snapshot { format: ImageFormat::Png },
        UnitLength::Inches,
        with_token(),
        vec![Event::Parsed, Event::Connected, Event::Executed, ack(), png_reply()],
    );
    assert_eq!(
        actions[3],
        Action::Send { command: ModelingCommand::ZoomToFit { padding_hundredths: 10, animated: false } }
    );
    assert_eq!(
        actions[4],
        Action::Send { command: ModelingCommand::TakeSnapshot { format: ImageFormat::Png } }
    );
    match &actions[5] {
        Action::Return { output: CallOutput::Image { contents } } => {
            assert!(!contents.is_empty());
            assert_eq!(contents, &vec![0x89, b'P', b'N', b'G']);
        }
        other => panic!("unexpected action {:?}", other),
    }
    assert!(call.is_finished());
}

#[test]
fn snapshot_jpeg_requests_jpeg() {
    let jpeg = Event::Replied { response: EngineResponse::Snapshot { contents: vec![0xFF, 0xD8, 0xFF] } };
    let (_, actions) = run(
        Workflow::Snapshot { format: ImageFormat::Jpeg },
        UnitLength::Meters,
        with_token(),
        vec![Event::Parsed, Event::Connected, Event::Executed, ack(), jpeg],
    );
    assert_eq!(
        actions[4],
        Action::Send { command: ModelingCommand::TakeSnapshot { format: ImageFormat::Jpeg } }
    );
    assert_eq!(
        actions[5],
        Action::Return { output: CallOutput::Image { contents: vec![0xFF, 0xD8, 0xFF] } }
    );
}

#[test]
fn snapshot_with_export_shaped_reply_fails_with_mismatch() {
    let wrong = EngineResponse::Export { files: vec![] };
    let (call, actions) = run(
        Workflow::Snapshot { format: ImageFormat::Png },
        UnitLength::Meters,
        with_token(),
        vec![
            Event::Parsed,
            Event::Connected,
            Event::Executed,
            ack(),
            Event::Replied { response: wrong.clone() },
        ],
    );
    assert_eq!(
        actions[5],
        Action::Fail { error: CallError::UnexpectedResponse { response: wrong } }
    );
    assert_eq!(call.phase, Phase::Failed);
}

#[test]
fn export_sends_resolved_descriptor_for_every_format() {
    let formats = [
        FileExportFormat::Fbx,
        FileExportFormat::Glb,
        FileExportFormat::Gltf,
        FileExportFormat::Obj,
        FileExportFormat::Ply,
        FileExportFormat::Step,
        FileExportFormat::Stl,
    ];
    for format in formats {
        let file = ExportFile { contents: vec![b's', b'o', b'l', b'i', b'd'], name: "output".to_string() };
        let reply = Event::Replied { response: EngineResponse::Export { files: vec![file.clone()] } };
        let (call, actions) = run(
            Workflow::Export { format },
            UnitLength::Feet,
            with_token(),
            vec![Event::Parsed, Event::Connected, Event::Executed, reply],
        );
        assert_eq!(
            actions[3],
            Action::Send {
                command: ModelingCommand::Export { format: get_output_format(&format, UnitLength::Feet) }
            }
        );
        match &actions[4] {
            Action::Return { output: CallOutput::Files { files } } => {
                assert!(!files.is_empty());
                assert!(!files[0].name.is_empty());
                assert!(!files[0].contents.is_empty());
                assert_eq!(files, &vec![file]);
            }
            other => panic!("unexpected action {:?}", other),
        }
        assert_eq!(call.phase, Phase::Returned);
    }
}

#[test]
fn export_with_snapshot_reply_fails_with_mismatch() {
    let wrong = EngineResponse::Snapshot { contents: vec![1, 2] };
    let (_, actions) = run(
        Workflow::Export { format: FileExportFormat::Stl },
        UnitLength::Millimeters,
        with_token(),
        vec![Event::Parsed, Event::Connected, Event::Executed, Event::Replied { response: wrong.clone() }],
    );
    assert_eq!(actions[4], Action::Fail { error: CallError::UnexpectedResponse { response: wrong } });
}

#[test]
fn execution_failure_carries_range_and_stops_commands() {
    let range = SourceRange { start: 14, end: 27 };
    let (call, actions) = run(
        Workflow::Snapshot { format: ImageFormat::Png },
        UnitLength::Millimeters,
        with_token(),
        vec![
            Event::Parsed,
            Event::Connected,
            Event::ExecutionFailed { message: "undefined value: `foo`".to_string(), range },
            Event::Executed,
            ack(),
            png_reply(),
        ],
    );
    assert_eq!(
        actions[3],
        Action::Fail {
            error: CallError::Execution { message: "undefined value: `foo`".to_string(), range }
        }
    );
    assert_eq!(&actions[4..], &[Action::Idle, Action::Idle, Action::Idle]);
    assert_eq!(sends(&actions[4..]), 0);
    assert_eq!(call.phase, Phase::Failed);
}

#[test]
fn missing_token_fails_before_any_network_action() {
    let (call, actions) = run(
        Workflow::Export { format: FileExportFormat::Glb },
        UnitLength::Millimeters,
        without_token(),
        vec![Event::Parsed, Event::Connected, Event::Executed, ack()],
    );
    assert_eq!(actions[0], Action::Parse);
    assert_eq!(actions[1], Action::Fail { error: CallError::MissingCredential });
    assert_eq!(sends(&actions), 0);
    assert_eq!(call.phase, Phase::Failed);
}

#[test]
fn missing_token_with_out_of_order_events_stays_offline() {
    let (_, actions) = run(
        Workflow::Snapshot { format: ImageFormat::Jpeg },
        UnitLength::Yards,
        without_token(),
        vec![Event::Connected, Event::Parsed, Event::Executed, png_reply()],
    );
    assert_eq!(actions[1], Action::Fail { error: CallError::UnexpectedEvent });
    assert_eq!(sends(&actions), 0);
}

#[test]
fn parse_failure_is_reported_with_range() {
    let range = SourceRange { start: 0, end: 3 };
    let (_, actions) = run(
        Workflow::Execute,
        UnitLength::Millimeters,
        with_token(),
        vec![Event::ParseFailed { message: "unexpected token".to_string(), range }, Event::Parsed],
    );
    assert_eq!(
        actions[1],
        Action::Fail { error: CallError::Parse { message: "unexpected token".to_string(), range } }
    );
    assert_eq!(actions[2], Action::Idle);
}

#[test]
fn transport_failure_while_waiting_for_export() {
    let (_, actions) = run(
        Workflow::Export { format: FileExportFormat::Step },
        UnitLength::Millimeters,
        with_token(),
        vec![
            Event::Parsed,
            Event::Connected,
            Event::Executed,
            Event::TransportFailed { message: "connection reset".to_string() },
        ],
    );
    assert_eq!(
        actions[4],
        Action::Fail { error: CallError::Transport { message: "connection reset".to_string() } }
    );
}

#[test]
fn connect_failure_is_transport_error() {
    let (_, actions) = run(
        Workflow::Execute,
        UnitLength::Millimeters,
        with_token(),
        vec![Event::Parsed, Event::TransportFailed { message: "timed out".to_string() }],
    );
    assert_eq!(
        actions[2],
        Action::Fail { error: CallError::Transport { message: "timed out".to_string() } }
    );
}

#[test]
fn reply_before_execution_is_unexpected() {
    let (call, actions) = run(
        Workflow::Execute,
        UnitLength::Millimeters,
        with_token(),
        vec![Event::Parsed, Event::Connected, png_reply()],
    );
    assert_eq!(actions[3], Action::Fail { error: CallError::UnexpectedEvent });
    assert!(call.is_finished());
}

#[test]
fn new_call_is_not_finished() {
    let (call, action) = Call::start(Workflow::Execute, UnitLength::Millimeters, with_token());
    assert_eq!(action, Action::Parse);
    assert!(!call.is_finished());
    assert_eq!(call.phase, Phase::Parsing { config: with_token() });
}
