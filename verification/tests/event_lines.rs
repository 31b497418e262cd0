use process_bridge::event::classify;
use process_bridge::event::event_from_decoded;
use process_bridge::event::interpret_line;
use process_bridge::event::BotEvent;
use process_bridge::event::OutputLine;
use process_bridge::event::EVENT_CHANNEL;
use process_bridge::event::EVENT_MARKER;
use serde_json::Number;
use serde_json::Value;

fn step_one() -> Value {
    let mut fields = serde_json::Map::new();
    fields.insert("step".to_string(), Value::Number(Number::from(1)));
    Value::Object(fields)
}

#[test]
fn structured_line_publishes_its_decoded_payload() {
    let event = interpret_line("alpha", "[BOT_EVENT]{\"step\":1}").unwrap();
    assert_eq!(event, BotEvent { label: "alpha".to_string(), payload: step_one() });
    assert_eq!(event.payload["step"], 1);
}

#[test]
fn structured_line_that_is_not_json_is_dropped() {
    assert_eq!(interpret_line("alpha", "[BOT_EVENT]not-json"), None);
    assert_eq!(interpret_line("alpha", "[BOT_EVENT]"), None);
    assert_eq!(interpret_line("alpha", "[BOT_EVENT]{\"step\":1} trailing"), None);
    assert_eq!(interpret_line("alpha", "[BOT_EVENT]{\"step\":"), None);
}

#[test]
fn debug_line_publishes_nothing() {
    assert_eq!(interpret_line("alpha", "debug: starting"), None);
    assert_eq!(classify("debug: starting"), OutputLine::Debug);
    assert_eq!(interpret_line("alpha", ""), None);
    assert_eq!(interpret_line("alpha", "{\"step\":1}"), None);
    assert_eq!(interpret_line("alpha", " [BOT_EVENT]{\"step\":1}"), None);
    assert_eq!(interpret_line("alpha", "[bot_event]{\"step\":1}"), None);
    assert_eq!(interpret_line("alpha", "[BOT_EVENT{\"step\":1}"), None);
}

#[test]
fn classification_strips_the_marker_and_nothing_else() {
    assert_eq!(EVENT_MARKER, "[BOT_EVENT]");
    assert_eq!(EVENT_CHANNEL, "bot-progress");
    assert_eq!(
        classify("[BOT_EVENT]{\"step\":1}"),
        OutputLine::StructuredEvent { payload: "{\"step\":1}".to_string() }
    );
    assert_eq!(
        classify("[BOT_EVENT]"),
        OutputLine::StructuredEvent { payload: String::new() }
    );
    assert_eq!(
        classify("[BOT_EVENT] [BOT_EVENT]x "),
        OutputLine::StructuredEvent { payload: " [BOT_EVENT]x ".to_string() }
    );
    assert_eq!(
        classify("[BOT_EVENT]\u{e9}\u{4e2d}"),
        OutputLine::StructuredEvent { payload: "\u{e9}\u{4e2d}".to_string() }
    );
    assert_eq!(classify("\u{e9}[BOT_EVENT]{}"), OutputLine::Debug);
    assert_eq!(classify("[BOT_EVEN"), OutputLine::Debug);
}

#[test]
fn payload_of_any_shape_is_forwarded() {
    assert_eq!(interpret_line("b", "[BOT_EVENT]null").unwrap().payload, Value::Null);
    assert_eq!(interpret_line("b", "[BOT_EVENT]true").unwrap().payload, Value::Bool(true));
    assert_eq!(
        interpret_line("b", "[BOT_EVENT]\"h\u{e9}llo\"").unwrap().payload,
        Value::String("h\u{e9}llo".to_string())
    );
    assert_eq!(
        interpret_line("b", "[BOT_EVENT] [1, 2] ").unwrap().payload,
        Value::Array(vec![Value::Number(Number::from(1)), Value::Number(Number::from(2))])
    );
    let nested = interpret_line("b", "[BOT_EVENT]{\"a\":{\"b\":[]}}").unwrap();
    assert_eq!(nested.label, "b");
    assert_eq!(nested.payload["a"]["b"], Value::Array(vec![]));
}

#[test]
fn decoder_answer_becomes_an_event_or_nothing() {
    let ok = serde_json::from_str::<Value>("{\"step\":1}");
    assert_eq!(
        event_from_decoded("gamma", ok),
        Some(BotEvent { label: "gamma".to_string(), payload: step_one() })
    );
    let bad = serde_json::from_str::<Value>("not-json");
    assert!(bad.is_err());
    assert_eq!(event_from_decoded("gamma", bad), None);
}
