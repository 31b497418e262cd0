use process_bridge::event::BotEvent;
use process_bridge::path::Platform;
use process_bridge::runner::BridgeError;
use process_bridge::runner::CommandPlan;
use process_bridge::runner::StreamMode;
use process_bridge::runner::Worker;
use process_bridge::supervisor::Action;
use process_bridge::supervisor::Event;
use process_bridge::supervisor::ExitWatch;
use process_bridge::supervisor::Phase;
use process_bridge::supervisor::Stage;
use process_bridge::supervisor::Supervisor;
use process_bridge::supervisor::BOT_SCRIPT;
use serde_json::Number;
use serde_json::Value;

fn step_payload(n: i64) -> Value {
    let mut fields = serde_json::Map::new();
    fields.insert("step".to_string(), Value::Number(Number::from(n)));
    Value::Object(fields)
}

fn line(text: &str) -> Event {
    Event::Line { text: text.to_string() }
}

fn published(label: &str, n: i64) -> Action {
    Action::Publish {
        channel: "bot-progress".to_string(),
        event: BotEvent { label: label.to_string(), payload: step_payload(n) },
    }
}

fn streaming(label: &str) -> Supervisor {
    let mut s = Supervisor::new(label, "/home/u/proj/src-tauri", Platform::Posix);
    assert!(matches!(s.step(Event::Start { script_present: true }), Action::Spawn(_)));
    assert!(matches!(s.step(Event::Spawned), Action::Acknowledge { .. }));
    s
}

#[test]
fn new_supervisor_is_idle_and_knows_its_script() {
    let s = Supervisor::new("alpha", "/home/u/proj/src-tauri", Platform::Posix);
    assert_eq!(s.phase(), Phase::Idle);
    assert_eq!(s.stage(), Stage::Idle);
    assert_eq!(s.label(), "alpha");
    assert_eq!(s.root(), "/home/u/proj");
    assert_eq!(s.script_path(), "/home/u/proj/src/bots/bot_starter.ts");
    assert_eq!(BOT_SCRIPT, "src/bots/bot_starter.ts");
    assert!(!s.is_reading());
    assert!(!s.is_settled());
}

#[test]
fn start_acknowledges_before_any_line_is_published() {
    let mut s = Supervisor::new("alpha", "/home/u/proj", Platform::Posix);
    assert_eq!(s.step(line("[BOT_EVENT]{\"step\":1}")), Action::Nothing);
    assert_eq!(s.phase(), Phase::Idle);

    let spawn = s.step(Event::Start { script_present: true });
    assert_eq!(
        spawn,
        Action::Spawn(CommandPlan {
            program: "bun".to_string(),
            args: vec!["/home/u/proj/src/bots/bot_starter.ts".to_string(), "alpha".to_string()],
            working_dir: "/home/u/proj".to_string(),
            stdout: StreamMode::Captured,
            stderr: StreamMode::Inherited,
        })
    );
    assert_eq!(s.phase(), Phase::Spawning);
    assert_eq!(s.step(line("[BOT_EVENT]{\"step\":1}")), Action::Nothing);

    let ack = s.step(Event::Spawned);
    assert_eq!(
        ack,
        Action::Acknowledge { message: "Bot 'alpha' started successfully".to_string() }
    );
    assert_eq!(s.phase(), Phase::Streaming);
    assert!(s.is_reading());

    assert_eq!(s.step(line("[BOT_EVENT]{\"step\":1}")), published("alpha", 1));
    assert_eq!(s.phase(), Phase::Streaming);
}

#[test]
fn stream_end_and_exit_zero_complete_the_run() {
    let mut s = streaming("alpha");
    assert_eq!(s.step(Event::StreamClosed), Action::Nothing);
    assert_eq!(s.phase(), Phase::Streaming);
    assert!(!s.is_reading());
    assert!(!s.is_settled());
    assert_eq!(s.step(Event::Exited { code: Some(0) }), Action::Nothing);
    assert_eq!(s.phase(), Phase::Completed);
    assert!(s.is_settled());
    assert_eq!(
        s.stage(),
        Stage::Running { reader_open: false, exit: ExitWatch::Reaped { code: Some(0) } }
    );

    let mut s = streaming("alpha");
    assert_eq!(s.step(Event::Exited { code: Some(0) }), Action::Nothing);
    assert_eq!(s.phase(), Phase::Streaming);
    assert_eq!(s.step(line("[BOT_EVENT]{\"step\":3}")), published("alpha", 3));
    assert_eq!(s.step(Event::StreamClosed), Action::Nothing);
    assert_eq!(s.phase(), Phase::Completed);
}

#[test]
fn missing_bot_script_fails_the_start_at_once() {
    let mut s = Supervisor::new("alpha", "/home/u/proj/src-tauri", Platform::Posix);
    let action = s.step(Event::Start { script_present: false });
    assert_eq!(
        action,
        Action::Reject(BridgeError::ScriptNotFound {
            worker: Worker::Bot,
            path: "/home/u/proj/src/bots/bot_starter.ts".to_string(),
        })
    );
    if let Action::Reject(error) = action {
        assert_eq!(
            error.message(),
            "Bot starter script not found: /home/u/proj/src/bots/bot_starter.ts"
        );
    }
    assert_eq!(s.phase(), Phase::Failed);
    assert_eq!(s.stage(), Stage::Rejected);
    assert!(s.is_settled());
    assert_eq!(s.step(Event::Spawned), Action::Nothing);
    assert_eq!(s.step(Event::Start { script_present: true }), Action::Nothing);
    assert_eq!(s.step(line("[BOT_EVENT]{\"step\":1}")), Action::Nothing);
    assert_eq!(s.phase(), Phase::Failed);
}

#[test]
fn failed_spawn_is_returned_to_the_caller() {
    let mut s = Supervisor::new("alpha", "/home/u/proj", Platform::Posix);
    assert!(matches!(s.step(Event::Start { script_present: true }), Action::Spawn(_)));
    let action = s.step(Event::SpawnFailed { reason: "No such file or directory".to_string() });
    assert_eq!(
        action,
        Action::Reject(BridgeError::Spawn {
            worker: Worker::Bot,
            reason: "No such file or directory".to_string(),
        })
    );
    if let Action::Reject(error) = action {
        assert_eq!(error.message(), "Failed to spawn bot process: No such file or directory");
    }
    assert_eq!(s.phase(), Phase::Failed);
    assert_eq!(s.step(line("[BOT_EVENT]{\"step\":1}")), Action::Nothing);
}

#[test]
fn events_are_published_in_the_order_of_their_lines() {
    let mut s = streaming("beta");
    let lines = [
        "booting",
        "[BOT_EVENT]{\"step\":1}",
        "[BOT_EVENT]not-json",
        "debug: starting",
        "[BOT_EVENT]{\"step\":2}",
        "[BOT_EVENT]{\"step\":3}",
        "bye",
    ];
    let mut seen: Vec<Action> = Vec::new();
    for text in lines {
        let action = s.step(line(text));
        if action != Action::Nothing {
            seen.push(action);
        }
    }
    assert_eq!(seen, vec![published("beta", 1), published("beta", 2), published("beta", 3)]);
    assert_eq!(s.phase(), Phase::Streaming);
}

#[test]
fn malformed_and_debug_lines_raise_no_error() {
    let mut s = streaming("alpha");
    assert_eq!(s.step(line("[BOT_EVENT]not-json")), Action::Nothing);
    assert_eq!(s.step(line("debug: starting")), Action::Nothing);
    assert_eq!(s.phase(), Phase::Streaming);
    assert!(s.is_reading());
    assert_eq!(s.step(line("[BOT_EVENT]{\"step\":1}")), published("alpha", 1));
}

#[test]
fn non_zero_exit_fails_without_stopping_the_reader() {
    let mut s = streaming("alpha");
    assert_eq!(s.step(line("[BOT_EVENT]{\"step\":1}")), published("alpha", 1));
    assert_eq!(s.step(Event::Exited { code: Some(2) }), Action::Nothing);
    assert_eq!(s.phase(), Phase::Failed);
    assert!(!s.is_settled());
    assert_eq!(s.step(line("[BOT_EVENT]{\"step\":2}")), published("alpha", 2));
    assert_eq!(s.step(Event::StreamClosed), Action::Nothing);
    assert_eq!(s.phase(), Phase::Failed);
    assert!(s.is_settled());
    assert_eq!(s.step(line("[BOT_EVENT]{\"step\":3}")), Action::Nothing);

    let mut s = streaming("alpha");
    assert_eq!(s.step(Event::Exited { code: None }), Action::Nothing);
    assert_eq!(s.phase(), Phase::Failed);
    assert_eq!(s.step(Event::Exited { code: Some(0) }), Action::Nothing);
    assert_eq!(s.phase(), Phase::Failed);
}

#[test]
fn events_out_of_place_change_nothing() {
    let mut s = Supervisor::new("alpha", "/p", Platform::Posix);
    assert_eq!(s.step(Event::Spawned), Action::Nothing);
    assert_eq!(s.step(Event::SpawnFailed { reason: "x".to_string() }), Action::Nothing);
    assert_eq!(s.step(Event::StreamClosed), Action::Nothing);
    assert_eq!(s.step(Event::Exited { code: Some(0) }), Action::Nothing);
    assert_eq!(s.stage(), Stage::Idle);
    let mut s = streaming("alpha");
    assert_eq!(s.step(Event::Start { script_present: true }), Action::Nothing);
    assert_eq!(s.step(Event::Spawned), Action::Nothing);
    assert_eq!(
        s.stage(),
        Stage::Running { reader_open: true, exit: ExitWatch::Pending }
    );
}

#[test]
fn advance_takes_the_decoded_event_as_it_is_given() {
    let mut s = streaming("alpha");
    let event = BotEvent { label: "alpha".to_string(), payload: step_payload(9) };
    assert_eq!(s.advance(line("anything"), Some(event)), published("alpha", 9));
    assert_eq!(s.advance(line("[BOT_EVENT]{\"step\":1}"), None), Action::Nothing);
    let event = BotEvent { label: "alpha".to_string(), payload: step_payload(9) };
    assert_eq!(s.advance(Event::StreamClosed, Some(event)), Action::Nothing);
    let event = BotEvent { label: "alpha".to_string(), payload: step_payload(9) };
    assert_eq!(s.advance(line("x"), Some(event)), Action::Nothing);
}

#[test]
fn label_with_quotes_and_drive_letter_roots() {
    let mut s = Supervisor::new("it's", "C:\\proj\\src-tauri", Platform::DriveLetters);
    assert_eq!(s.script_path(), "C:\\proj\\src/bots/bot_starter.ts");
    assert_eq!(s.root(), "C:\\proj");
    assert!(matches!(s.step(Event::Start { script_present: true }), Action::Spawn(_)));
    assert_eq!(
        s.step(Event::Spawned),
        Action::Acknowledge { message: "Bot 'it's' started successfully".to_string() }
    );
}
