use app_runtime::ipc::{
    escape_for_script, ipc_payload, response_script, CommandHandler, CommandRegistry, EventEmitter,
    IpcError, IpcRequest, IpcResponse, JsonValue,
};

fn s(text: &str) -> JsonValue {
    JsonValue::String(text.to_string())
}

fn object(members: Vec<(&str, JsonValue)>) -> JsonValue {
    JsonValue::Object(members.into_iter().map(|(k, v)| (k.to_string(), v)).collect())
}

struct EchoHandler;

impl CommandHandler for EchoHandler {
    fn handle(&self, args: JsonValue) -> Result<JsonValue, IpcError> {
        Ok(args)
    }
}

struct GreetHandler;

impl CommandHandler for GreetHandler {
    fn handle(&self, args: JsonValue) -> Result<JsonValue, IpcError> {
        let name = args
            .get("name")
            .and_then(|v| v.as_str())
            .ok_or_else(|| IpcError::InvalidArgs("missing 'name' field".into()))?;
        Ok(object(vec![("greeting", s(&format!("Hello, {name}!")))]))
    }
}

#[test]
fn register_and_invoke_command() {
    let mut registry = CommandRegistry::new();
    registry.register("echo".to_string(), EchoHandler);
    let result = registry.invoke("echo", object(vec![("msg", s("hi"))])).unwrap();
    assert_eq!(result, object(vec![("msg", s("hi"))]));
}

#[test]
fn invoke_unknown_command_returns_error() {
    let registry = CommandRegistry::new();
    let err = registry.invoke("nope", object(vec![])).unwrap_err();
    assert!(matches!(err, IpcError::UnknownCommand(_)));
}

#[test]
fn invoke_greet_command() {
    let mut registry = CommandRegistry::new();
    registry.register("greet".to_string(), GreetHandler);
    let result = registry.invoke("greet", object(vec![("name", s("World"))])).unwrap();
    assert_eq!(result, object(vec![("greeting", s("Hello, World!"))]));
}

#[test]
fn invoke_greet_missing_name() {
    let mut registry = CommandRegistry::new();
    registry.register("greet".to_string(), GreetHandler);
    let err = registry.invoke("greet", object(vec![])).unwrap_err();
    assert!(matches!(err, IpcError::InvalidArgs(_)));
}

#[test]
fn registering_again_replaces_the_handler() {
    let mut registry = CommandRegistry::new();
    registry.register("x".to_string(), GreetHandler);
    registry.register("x".to_string(), EchoHandler);
    assert!(registry.has_command("x"));
    assert!(!registry.has_command("y"));
    let result = registry.invoke("x", object(vec![])).unwrap();
    assert_eq!(result, object(vec![]));
}

#[test]
fn respond_carries_the_id_and_the_outcome() {
    let mut registry = CommandRegistry::new();
    registry.register("echo".to_string(), EchoHandler);
    let ok = registry.respond(IpcRequest { id: 7, command: "echo".to_string(), args: s("a") });
    assert_eq!(ok.id, 7);
    assert_eq!(ok.result, Some(s("a")));
    assert_eq!(ok.error, None);
    let err = registry.respond(IpcRequest { id: 8, command: "missing".to_string(), args: JsonValue::Null });
    assert_eq!(err.id, 8);
    assert_eq!(err.result, None);
    assert_eq!(err.error.as_deref(), Some("unknown command: missing"));
}

#[test]
fn error_messages_name_their_kind() {
    assert_eq!(IpcError::InvalidArgs("x".to_string()).message(), "invalid arguments: x");
    assert_eq!(IpcError::HandlerError("y".to_string()).message(), "handler error: y");
    assert_eq!(IpcError::Serialization("z".to_string()).message(), "serialization error: z");
    let r = IpcResponse::error(3, "boom".to_string());
    assert_eq!(r.error.as_deref(), Some("boom"));
    assert!(r.result.is_none());
    let r = IpcResponse::success(4, JsonValue::Bool(true));
    assert_eq!(r.result, Some(JsonValue::Bool(true)));
}

#[test]
fn json_get_and_as_str() {
    let v = object(vec![("a", s("1")), ("b", JsonValue::Number("2".to_string()))]);
    assert_eq!(v.get("a").and_then(|x| x.as_str()), Some("1"));
    assert_eq!(v.get("b").and_then(|x| x.as_str()), None);
    assert!(v.get("c").is_none());
    assert!(s("a").get("a").is_none());
}

#[test]
fn events_drain_in_emit_order() {
    let mut emitter = EventEmitter::new();
    emitter.emit("first".to_string(), JsonValue::Null);
    emitter.emit("second".to_string(), s("p"));
    let events = emitter.drain();
    assert_eq!(events.len(), 2);
    assert_eq!(events[0].name, "first");
    assert_eq!(events[1].name, "second");
    assert_eq!(events[1].payload, s("p"));
    assert!(emitter.drain().is_empty());
}

#[test]
fn console_lines_with_the_marker_carry_requests() {
    assert_eq!(ipc_payload("__IPC__:{\"id\":1}").as_deref(), Some("{\"id\":1}"));
    assert_eq!(ipc_payload("__IPC__:").as_deref(), Some(""));
    assert_eq!(ipc_payload("hello"), None);
    assert_eq!(ipc_payload("x__IPC__:"), None);
}

#[test]
fn responses_are_escaped_for_single_quoted_scripts() {
    assert_eq!(escape_for_script(r#"a\b'c"#), r#"a\\b\'c"#);
    assert_eq!(
        response_script(r#"{"id":1,"error":"it's"}"#),
        r#"window.__runtime._handleResponse('{"id":1,"error":"it\'s"}')"#
    );
}

#[test]
fn defaults_are_empty() {
    let registry = CommandRegistry::default();
    assert!(!registry.has_command("greet"));
    let mut emitter = EventEmitter::default();
    assert!(emitter.drain().is_empty());
}

#[test]
fn outcomes_become_answers() {
    let ok = IpcResponse::from_outcome(7, Ok(s("done")));
    assert_eq!(ok.id, 7);
    assert_eq!(ok.result, Some(s("done")));
    assert_eq!(ok.error, None);
    let failed = IpcResponse::from_outcome(8, Err(IpcError::InvalidArgs("missing 'name'".to_string())));
    assert_eq!(failed.id, 8);
    assert_eq!(failed.result, None);
    assert_eq!(failed.error.as_deref(), Some("invalid arguments: missing 'name'"));
}
