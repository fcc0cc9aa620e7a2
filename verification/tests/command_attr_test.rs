use app_runtime::bindgen::{FnShape, ParamShape, ReturnShape};
use app_runtime::command_attr::{command_expansion, expand_command};

fn named(name: &str, ty: &str) -> ParamShape {
    ParamShape::Named { name: name.to_string(), type_tokens: ty.to_string() }
}

fn shape(name: &str, params: Vec<ParamShape>, output: ReturnShape) -> FnShape {
    FnShape { name: name.to_string(), attributes: vec!["command".to_string()], params, output }
}

#[test]
fn expansion_of_a_fallible_command() {
    let f = shape(
        "greet",
        vec![named("name", "String")],
        ReturnShape::Type {
            tokens: "Result < String , String >".to_string(),
            last_segment: Some("Result".to_string()),
            first_type_arg: Some("String".to_string()),
        },
    );
    let expected = [
        "pub struct __command_handler_greet;\n\n",
        "impl runtime_ipc::command::CommandHandler for __command_handler_greet {\n",
        "    fn handle(&self, args: serde_json::Value) -> Result<serde_json::Value, runtime_ipc::IpcError> {\n",
        "        let name: String = serde_json::from_value(args.get(\"name\").cloned().unwrap_or(serde_json::Value::Null))",
        ".map_err(|e| runtime_ipc::IpcError::InvalidArgs(format!(\"field '{}': {}\", \"name\", e)))?;\n",
        "        let result = greet(name).map_err(|e| runtime_ipc::IpcError::HandlerError(e.to_string()))?;\n",
        "        serde_json::to_value(result).map_err(runtime_ipc::IpcError::Serialization)\n",
        "    }\n}\n\n",
        "impl __command_handler_greet {\n    pub const NAME: &'static str = \"greet\";\n}\n",
    ]
    .concat();
    assert_eq!(command_expansion(&f), expected);
}

#[test]
fn expansion_of_an_infallible_command_with_two_arguments() {
    let f = shape(
        "add",
        vec![named("a", "i32"), named("b", "i32")],
        ReturnShape::Type { tokens: "i32".to_string(), last_segment: Some("i32".to_string()), first_type_arg: None },
    );
    let out = command_expansion(&f);
    assert!(out.contains("        let a: i32 = serde_json::from_value(args.get(\"a\")"));
    assert!(out.contains("        let b: i32 = serde_json::from_value(args.get(\"b\")"));
    assert!(out.contains("        let result = add(a, b);\n"));
    assert!(!out.contains("HandlerError"));
    assert!(out.contains("pub const NAME: &'static str = \"add\";"));
}

#[test]
fn no_arguments_and_no_return_type() {
    let f = shape("ping", vec![], ReturnShape::Default);
    let out = command_expansion(&f);
    assert!(out.contains("        let result = ping();\n"));
    assert!(!out.contains("from_value"));
}

#[test]
fn receivers_and_patterns_are_left_out() {
    let f = shape("method", vec![ParamShape::Other, named("a", "i32"), ParamShape::Other], ReturnShape::Default);
    let out = command_expansion(&f);
    assert!(out.contains("        let a: i32 = serde_json::from_value(args.get(\"a\")"));
    assert!(out.contains("        let result = method(a);\n"));
}

#[test]
fn whole_expansion_keeps_the_function_first() {
    let item = "fn greet(name: String) -> String { name }";
    let f = shape(
        "greet",
        vec![named("name", "String")],
        ReturnShape::Type { tokens: "String".to_string(), last_segment: Some("String".to_string()), first_type_arg: None },
    );
    let out = expand_command(item, &f);
    assert!(out.starts_with("fn greet(name: String) -> String { name }\n\npub struct __command_handler_greet;\n"));
    assert!(out.contains("impl runtime_ipc::command::CommandHandler for __command_handler_greet {\n"));
    assert!(out.contains("        let result = greet(name);\n"));
    assert!(out.ends_with("impl __command_handler_greet {\n    pub const NAME: &'static str = \"greet\";\n}\n"));
    assert_eq!(out, format!("{item}\n\n{}", command_expansion(&f)));
}
