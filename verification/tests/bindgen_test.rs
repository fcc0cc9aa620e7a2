use app_runtime::bindgen::{bindings_for, generate_bindings, rust_type_to_ts, FnShape, ParamShape, ReturnShape};

fn named(name: &str, ty: &str) -> ParamShape {
    ParamShape::Named { name: name.to_string(), type_tokens: ty.to_string() }
}

fn result_of(ok: &str, err: &str) -> ReturnShape {
    ReturnShape::Type {
        tokens: format!("Result < {ok} , {err} >"),
        last_segment: Some("Result".to_string()),
        first_type_arg: Some(ok.to_string()),
    }
}

fn command(name: &str, params: Vec<ParamShape>, output: ReturnShape) -> FnShape {
    FnShape { name: name.to_string(), attributes: vec!["command".to_string()], params, output }
}

#[test]
fn generates_ts_for_simple_command() {
    let source = r#"
        #[command]
        fn greet(name: String) -> Result<String, AppError> {
            Ok(format!("Hello, {}!", name))
        }
    "#;
    // The signature of `greet` as the parser reports it.
    let functions = vec![command("greet", vec![named("name", "String")], result_of("String", "AppError"))];

    let output = generate_bindings(source, &functions).unwrap();

    assert!(output.contains("greet"), "output should contain 'greet'");
    assert!(output.contains("name: string"), "output should contain 'name: string'");
    assert!(output.contains("Promise<string>"), "output should contain 'Promise<string>'");
}

#[test]
fn generates_ts_for_command_with_multiple_args() {
    let source = r#"
        #[command]
        fn add(a: i32, b: i32) -> Result<i32, AppError> {
            Ok(a + b)
        }
    "#;
    // The signature of `add` as the parser reports it.
    let functions = vec![command("add", vec![named("a", "i32"), named("b", "i32")], result_of("i32", "AppError"))];

    let output = generate_bindings(source, &functions).unwrap();

    assert!(output.contains("add"), "output should contain 'add'");
    assert!(output.contains("a: number"), "output should contain 'a: number'");
    assert!(output.contains("b: number"), "output should contain 'b: number'");
    assert!(output.contains("Promise<number>"), "output should contain 'Promise<number>'");
}

#[test]
fn type_mapping() {
    assert_eq!(rust_type_to_ts("String"), "string");
    assert_eq!(rust_type_to_ts("& str"), "string");
    assert_eq!(rust_type_to_ts("bool"), "boolean");
    assert_eq!(rust_type_to_ts("u64"), "number");
    assert_eq!(rust_type_to_ts("f32"), "number");
    assert_eq!(rust_type_to_ts("Vec < u8 >"), "any");
    assert_eq!(rust_type_to_ts("usize"), "any");
}

#[test]
fn whole_module_text() {
    let fns = vec![
        command("ping", vec![], ReturnShape::Default),
        FnShape { name: "helper".to_string(), attributes: vec![], params: vec![], output: ReturnShape::Default },
        command(
            "sum",
            vec![ParamShape::Other, named("a", "i32"), named("b", "i32")],
            ReturnShape::Type { tokens: "i64".to_string(), last_segment: Some("i64".to_string()), first_type_arg: None },
        ),
    ];
    let expected = [
        "declare const __runtime: {\n",
        "  invoke(cmd: string, args?: Record<string, unknown>): Promise<unknown>;\n",
        "  on(event: string, handler: (...args: unknown[]) => void): void;\n",
        "};\n\n",
        "export const commands = {\n",
        "  async ping(): Promise<void> {\n",
        "    return __runtime.invoke('ping') as Promise<void>;\n",
        "  },\n",
        "  async sum(a: number, b: number): Promise<number> {\n",
        "    return __runtime.invoke('sum', { a, b }) as Promise<number>;\n",
        "  }\n",
        "};\n",
    ]
    .concat();
    assert_eq!(bindings_for(&fns), expected);
}

#[test]
fn no_commands_gives_an_empty_object() {
    let out = bindings_for(&vec![]);
    assert!(out.ends_with("export const commands = {\n};\n"));
}

#[test]
fn source_that_does_not_parse_gives_no_bindings() {
    assert_eq!(generate_bindings("fn broken( {", &vec![]), None);
    let fns = vec![command("ping", vec![], ReturnShape::Default)];
    let out = generate_bindings("#[command]\nfn ping() {}\n", &fns).unwrap();
    assert_eq!(out, bindings_for(&fns));
    assert!(out.contains("async ping(): Promise<void>"));
}
