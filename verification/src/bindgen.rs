//! TypeScript bindings for the commands of a backend: which functions are
//! commands, the TypeScript types of their parameters and results, and the
//! text of the generated module.
//!
//! The Rust source is parsed by the caller; this module receives, for each
//! function in visiting order, the pieces of its signature that the
//! generator reads: the paths of its attributes, its parameters, and its
//! return type with the last path segment and first type argument.
use vstd::prelude::*;
use crate::text::{chars_of, push_char, str_eq};
use crate::strset::strs_view;

verus! {

/// A parameter of a function signature.
pub enum ParamShape {
    /// A parameter bound to a plain name, with the tokens of its type.
    Named { name: String, type_tokens: String },
    /// A receiver (`self`) or a parameter bound by a pattern.
    Other,
}

/// The return type of a function signature.
pub enum ReturnShape {
    /// No return type written.
    Default,
    /// A return type: its tokens; when it is a path, the name of its last
    /// segment; and when that segment has angle-bracketed arguments whose
    /// first is a type, the tokens of that type.
    Type { tokens: String, last_segment: Option<String>, first_type_arg: Option<String> },
}

/// What the generator reads of a function.
pub struct FnShape {
    pub name: String,
    /// The path of each attribute, segments joined by `::`.
    pub attributes: Vec<String>,
    pub params: Vec<ParamShape>,
    pub output: ReturnShape,
}

/// A command: its name, each parameter's name and TypeScript type, and the
/// TypeScript type of its result.
pub struct CommandInfo {
    pub name: String,
    pub args: Vec<(String, String)>,
    pub return_type: String,
}

/// `s` without its spaces.
pub open spec fn strip_spaces(s: Seq<char>) -> Seq<char>
    decreases s.len(),
{
    if s.len() == 0 {
        Seq::empty()
    } else if s.last() == ' ' {
        strip_spaces(s.drop_last())
    } else {
        strip_spaces(s.drop_last()).push(s.last())
    }
}

/// The Rust types whose TypeScript counterpart is `number`.
pub open spec fn spec_number_types() -> Seq<&'static str> {
    seq!["i8", "i16", "i32", "i64", "u8", "u16", "u32", "u64", "f32", "f64"]
}

/// The TypeScript type of a Rust type, given by its tokens: strings,
/// booleans and numbers map to their TypeScript types, everything else to
/// `any`. Spaces between tokens do not matter.
pub open spec fn spec_ts_type(tokens: Seq<char>) -> Seq<char> {
    let t = strip_spaces(tokens);
    if t == "String"@ || t == "&str"@ {
        "string"@
    } else if t == "bool"@ {
        "boolean"@
    } else if exists|i: int| 0 <= i < spec_number_types().len() && (#[trigger] spec_number_types()[i])@ == t {
        "number"@
    } else {
        "any"@
    }
}

/// The TypeScript result type of a function: `void` without a return type;
/// for a `Result<T, _>`, the type of `T`; otherwise the type of the
/// return type itself.
pub open spec fn spec_return_ts(output: ReturnShape) -> Seq<char> {
    match output {
        ReturnShape::Default => "void"@,
        ReturnShape::Type { tokens, last_segment, first_type_arg } => match (last_segment, first_type_arg) {
            (Some(seg), Some(ok)) => if seg@ == "Result"@ {
                spec_ts_type(ok@)
            } else {
                spec_ts_type(tokens@)
            },
            _ => spec_ts_type(tokens@),
        },
    }
}

/// The parameters that the bindings list: the named ones, in order, with
/// their TypeScript types.
pub open spec fn spec_params(params: Seq<ParamShape>) -> Seq<(Seq<char>, Seq<char>)>
    decreases params.len(),
{
    if params.len() == 0 {
        Seq::empty()
    } else {
        let rest = spec_params(params.drop_last());
        match params.last() {
            ParamShape::Named { name, type_tokens } => rest.push((name@, spec_ts_type(type_tokens@))),
            ParamShape::Other => rest,
        }
    }
}

/// A function is a command when one of its attributes is `command`.
pub open spec fn spec_is_command(f: FnShape) -> bool {
    exists|i: int| 0 <= i < f.attributes@.len() && (#[trigger] f.attributes@[i])@ == "command"@
}

/// The model of a command.
pub open spec fn command_view(c: CommandInfo) -> (Seq<char>, Seq<(Seq<char>, Seq<char>)>, Seq<char>) {
    (c.name@, Seq::new(c.args@.len(), |i: int| (c.args@[i].0@, c.args@[i].1@)), c.return_type@)
}

/// The items of `parts` with `sep` between them.
pub open spec fn spec_join(parts: Seq<Seq<char>>, sep: Seq<char>) -> Seq<char>
    decreases parts.len(),
{
    if parts.len() == 0 {
        Seq::empty()
    } else if parts.len() == 1 {
        parts[0]
    } else {
        spec_join(parts.drop_last(), sep) + sep + parts.last()
    }
}

/// The parameter list of a command: `name: type`, separated by `, `.
pub open spec fn spec_param_list(args: Seq<(Seq<char>, Seq<char>)>) -> Seq<char> {
    spec_join(Seq::new(args.len(), |i: int| args[i].0 + ": "@ + args[i].1), ", "@)
}

/// The argument object of a command's call: empty without parameters,
/// else `, { a, b }`.
pub open spec fn spec_arg_object(args: Seq<(Seq<char>, Seq<char>)>) -> Seq<char> {
    if args.len() == 0 {
        Seq::empty()
    } else {
        ", { "@ + spec_join(Seq::new(args.len(), |i: int| args[i].0), ", "@) + " }"@
    }
}

/// The method that the bindings give a command.
pub open spec fn spec_entry(c: (Seq<char>, Seq<(Seq<char>, Seq<char>)>, Seq<char>)) -> Seq<char> {
    "  async "@ + c.0 + "("@ + spec_param_list(c.1) + "): Promise<"@ + c.2 + "> {\n    return __runtime.invoke('"@
        + c.0 + "'"@ + spec_arg_object(c.1) + ") as Promise<"@ + c.2 + ">;\n  }"@
}

/// The first `i` methods, each followed by `,\n`, the last of all by `\n`.
pub open spec fn spec_entries(cmds: Seq<(Seq<char>, Seq<(Seq<char>, Seq<char>)>, Seq<char>)>, i: nat) -> Seq<char>
    decreases i,
{
    if i == 0 {
        Seq::empty()
    } else {
        spec_entries(cmds, (i - 1) as nat) + spec_entry(cmds[i - 1]) + if i < cmds.len() {
            ",\n"@
        } else {
            "\n"@
        }
    }
}

/// The declaration of the runtime object that opens the bindings.
pub open spec fn spec_header() -> Seq<char> {
    "declare const __runtime: {\n  invoke(cmd: string, args?: Record<string, unknown>): Promise<unknown>;\n  on(event: string, handler: (...args: unknown[]) => void): void;\n};\n\n"@
}

/// The whole bindings module for a list of commands.
pub open spec fn spec_bindings(cmds: Seq<(Seq<char>, Seq<(Seq<char>, Seq<char>)>, Seq<char>)>) -> Seq<char> {
    spec_header() + "export const commands = {\n"@ + spec_entries(cmds, cmds.len()) + "};\n"@
}

/// `tokens` without spaces.
fn without_spaces(tokens: &str) -> (r: String)
    ensures
        r@ == strip_spaces(tokens@),
{
    let cs = chars_of(tokens);
    let mut out = String::new();
    let mut i: usize = 0;
    assert(tokens@.take(0) =~= Seq::<char>::empty());
    while i < cs.len()
        invariant
            cs@ == tokens@,
            i <= cs@.len(),
            out@ == strip_spaces(tokens@.take(i as int)),
        decreases cs@.len() - i,
    {
        assert(tokens@.take(i + 1).drop_last() =~= tokens@.take(i as int));
        if cs[i] != ' ' {
            push_char(&mut out, cs[i]);
        }
        i = i + 1;
    }
    assert(tokens@.take(cs@.len() as int) =~= tokens@);
    out
}

/// The TypeScript type of a Rust type, given by its tokens.
pub fn rust_type_to_ts(tokens: &str) -> (r: String)
    ensures
        r@ == spec_ts_type(tokens@),
{
    let t = without_spaces(tokens);
    let t = t.as_str();
    if str_eq(t, "String") || str_eq(t, "&str") {
        "string".to_string()
    } else if str_eq(t, "bool") {
        "boolean".to_string()
    } else {
        let numbers = vec!["i8", "i16", "i32", "i64", "u8", "u16", "u32", "u64", "f32", "f64"];
        assert(numbers@ =~= spec_number_types());
        let mut i: usize = 0;
        while i < numbers.len()
            invariant
                numbers@ == spec_number_types(),
                t@ == strip_spaces(tokens@),
                !(t@ == "String"@ || t@ == "&str"@),
                t@ != "bool"@,
                i <= numbers@.len(),
                forall|k: int| 0 <= k < i ==> (#[trigger] numbers@[k])@ != t@,
            decreases numbers@.len() - i,
        {
            if str_eq(numbers[i], t) {
                return "number".to_string();
            }
            i = i + 1;
        }
        "any".to_string()
    }
}

/// The TypeScript result type of a function.
pub fn extract_return_type(output: &ReturnShape) -> (r: String)
    ensures
        r@ == spec_return_ts(*output),
{
    match output {
        ReturnShape::Default => "void".to_string(),
        ReturnShape::Type { tokens, last_segment, first_type_arg } => match (last_segment, first_type_arg) {
            (Some(seg), Some(ok)) => if str_eq(seg.as_str(), "Result") {
                rust_type_to_ts(ok.as_str())
            } else {
                rust_type_to_ts(tokens.as_str())
            },
            _ => rust_type_to_ts(tokens.as_str()),
        },
    }
}

/// The command that a function declares, if it is one: its name, its named
/// parameters with their TypeScript types, and its TypeScript result type.
pub fn command_info(f: &FnShape) -> (r: Option<CommandInfo>)
    ensures
        r is Some <==> spec_is_command(*f),
        r matches Some(c) ==> command_view(c) == (f.name@, spec_params(f.params@), spec_return_ts(f.output)),
{
    let mut is_command = false;
    let mut i: usize = 0;
    while i < f.attributes.len()
        invariant
            i <= f.attributes@.len(),
            is_command == exists|k: int| 0 <= k < i && (#[trigger] f.attributes@[k])@ == "command"@,
        decreases f.attributes@.len() - i,
    {
        if str_eq(f.attributes[i].as_str(), "command") {
            is_command = true;
        }
        i = i + 1;
    }
    if !is_command {
        return None;
    }
    let mut args: Vec<(String, String)> = Vec::new();
    let mut j: usize = 0;
    assert(f.params@.take(0) =~= Seq::<ParamShape>::empty());
    while j < f.params.len()
        invariant
            j <= f.params@.len(),
            Seq::new(args@.len(), |m: int| (args@[m].0@, args@[m].1@)) == spec_params(f.params@.take(j as int)),
        decreases f.params@.len() - j,
    {
        let ghost before = Seq::new(args@.len(), |m: int| (args@[m].0@, args@[m].1@));
        assert(f.params@.take(j + 1).drop_last() =~= f.params@.take(j as int));
        match &f.params[j] {
            ParamShape::Named { name, type_tokens } => {
                let ts = rust_type_to_ts(type_tokens.as_str());
                args.push((name.clone(), ts));
                assert(Seq::new(args@.len(), |m: int| (args@[m].0@, args@[m].1@)) =~= before.push(
                    (name@, spec_ts_type(type_tokens@)),
                ));
            },
            ParamShape::Other => {},
        }
        j = j + 1;
    }
    assert(f.params@.take(f.params@.len() as int) =~= f.params@);
    let return_type = extract_return_type(&f.output);
    Some(CommandInfo { name: f.name.clone(), args, return_type })
}

/// The items of `parts` with `sep` between them.
pub fn join_strings(parts: &Vec<String>, sep: &str) -> (r: String)
    ensures
        r@ == spec_join(strs_view(parts@), sep@),
{
    let ghost pv = strs_view(parts@);
    let mut out = String::new();
    let mut i: usize = 0;
    assert(pv.take(0) =~= Seq::<Seq<char>>::empty());
    while i < parts.len()
        invariant
            pv == strs_view(parts@),
            i <= parts@.len(),
            out@ == spec_join(pv.take(i as int), sep@),
        decreases parts@.len() - i,
    {
        assert(pv.take(i + 1).drop_last() =~= pv.take(i as int));
        assert(pv.take(i + 1).last() == parts@[i as int]@);
        if i > 0 {
            out.append(sep);
        } else {
            assert(pv.take(1) =~= seq![parts@[0]@]);
        }
        out.append(parts[i].as_str());
        i = i + 1;
    }
    assert(pv.take(parts@.len() as int) =~= pv);
    out
}

fn param_list(args: &Vec<(String, String)>) -> (r: String)
    ensures
        r@ == spec_param_list(Seq::new(args@.len(), |i: int| (args@[i].0@, args@[i].1@))),
{
    let mut parts: Vec<String> = Vec::new();
    let mut i: usize = 0;
    while i < args.len()
        invariant
            i <= args@.len(),
            parts@.len() == i,
            forall|k: int| 0 <= k < i ==> (#[trigger] parts@[k])@ == args@[k].0@ + ": "@ + args@[k].1@,
        decreases args@.len() - i,
    {
        let mut p = args[i].0.clone();
        p.append(": ");
        p.append(args[i].1.as_str());
        parts.push(p);
        i = i + 1;
    }
    let r = join_strings(&parts, ", ");
    let ghost av = Seq::new(args@.len(), |i: int| (args@[i].0@, args@[i].1@));
    assert(strs_view(parts@) =~= Seq::new(av.len(), |i: int| av[i].0 + ": "@ + av[i].1));
    r
}

fn arg_object(args: &Vec<(String, String)>) -> (r: String)
    ensures
        r@ == spec_arg_object(Seq::new(args@.len(), |i: int| (args@[i].0@, args@[i].1@))),
{
    if args.len() == 0 {
        return String::new();
    }
    let mut names: Vec<String> = Vec::new();
    let mut i: usize = 0;
    while i < args.len()
        invariant
            i <= args@.len(),
            names@.len() == i,
            forall|k: int| 0 <= k < i ==> (#[trigger] names@[k])@ == args@[k].0@,
        decreases args@.len() - i,
    {
        names.push(args[i].0.clone());
        i = i + 1;
    }
    let joined = join_strings(&names, ", ");
    let ghost av = Seq::new(args@.len(), |i: int| (args@[i].0@, args@[i].1@));
    assert(strs_view(names@) =~= Seq::new(av.len(), |i: int| av[i].0));
    let mut s = ", { ".to_string();
    s.append(joined.as_str());
    s.append(" }");
    s
}

fn entry_text(c: &CommandInfo) -> (r: String)
    ensures
        r@ == spec_entry(command_view(*c)),
{
    let params = param_list(&c.args);
    let obj = arg_object(&c.args);
    let mut s = "  async ".to_string();
    s.append(c.name.as_str());
    s.append("(");
    s.append(params.as_str());
    s.append("): Promise<");
    s.append(c.return_type.as_str());
    s.append("> {\n    return __runtime.invoke('");
    s.append(c.name.as_str());
    s.append("'");
    s.append(obj.as_str());
    s.append(") as Promise<");
    s.append(c.return_type.as_str());
    s.append(">;\n  }");
    s
}

/// The bindings module for `commands`: the declaration of the runtime
/// object, then an object `commands` with one async method per command,
/// in order.
pub fn render_bindings(commands: &Vec<CommandInfo>) -> (r: String)
    ensures
        r@ == spec_bindings(Seq::new(commands@.len(), |i: int| command_view(commands@[i]))),
{
    let ghost cv = Seq::new(commands@.len(), |i: int| command_view(commands@[i]));
    let mut out = "declare const __runtime: {\n  invoke(cmd: string, args?: Record<string, unknown>): Promise<unknown>;\n  on(event: string, handler: (...args: unknown[]) => void): void;\n};\n\n".to_string();
    out.append("export const commands = {\n");
    let ghost prefix = out@;
    let n = commands.len();
    let mut i: usize = 0;
    while i < n
        invariant
            n == commands@.len(),
            cv == Seq::new(commands@.len(), |i: int| command_view(commands@[i])),
            i <= n,
            out@ == prefix + spec_entries(cv, i as nat),
        decreases n - i,
    {
        let e = entry_text(&commands[i]);
        out.append(e.as_str());
        if i + 1 < n {
            out.append(",\n");
        } else {
            out.append("\n");
        }
        assert(spec_entries(cv, (i + 1) as nat) == spec_entries(cv, i as nat) + spec_entry(cv[i as int]) + if i + 1
            < cv.len() {
            ",\n"@
        } else {
            "\n"@
        });
        i = i + 1;
    }
    out.append("};\n");
    out
}

/// The commands among `functions`, in order.
pub open spec fn spec_commands(functions: Seq<FnShape>) -> Seq<(Seq<char>, Seq<(Seq<char>, Seq<char>)>, Seq<char>)>
    decreases functions.len(),
{
    if functions.len() == 0 {
        Seq::empty()
    } else {
        let rest = spec_commands(functions.drop_last());
        let f = functions.last();
        if spec_is_command(f) {
            rest.push((f.name@, spec_params(f.params@), spec_return_ts(f.output)))
        } else {
            rest
        }
    }
}

/// The bindings for the commands among `functions`, in the order given.
pub fn bindings_for(functions: &Vec<FnShape>) -> (r: String)
    ensures
        r@ == spec_bindings(spec_commands(functions@)),
{
    let mut commands: Vec<CommandInfo> = Vec::new();
    let mut i: usize = 0;
    assert(functions@.take(0) =~= Seq::<FnShape>::empty());
    assert(Seq::new(commands@.len(), |k: int| command_view(commands@[k])) =~= Seq::empty());
    while i < functions.len()
        invariant
            i <= functions@.len(),
            Seq::new(commands@.len(), |k: int| command_view(commands@[k])) == spec_commands(functions@.take(i as int)),
        decreases functions@.len() - i,
    {
        let ghost before = Seq::new(commands@.len(), |k: int| command_view(commands@[k]));
        assert(functions@.take(i + 1).drop_last() =~= functions@.take(i as int));
        assert(functions@.take(i + 1).last() == functions@[i as int]);
        match command_info(&functions[i]) {
            Some(c) => {
                let ghost cv = command_view(c);
                commands.push(c);
                assert(Seq::new(commands@.len(), |k: int| command_view(commands@[k])) =~= before.push(cv));
            },
            None => {},
        }
        i = i + 1;
    }
    assert(functions@.take(functions@.len() as int) =~= functions@);
    render_bindings(&commands)
}

/// Whether `source` is a Rust source file. The `syn` crate decides.
pub uninterp spec fn rust_file_parses(source: Seq<char>) -> bool;

/// Whether `syn::parse_file` accepts `source`. Claimed: exactly when
/// `rust_file_parses` holds of the text, a function of the text alone.
#[verifier::external_body]
fn parses_as_rust_file(source: &str) -> (r: bool)
    ensures
        r == rust_file_parses(source@),
{
    syn::parse_file(source).is_ok()
}

/// The bindings of a Rust source file whose free functions, in visiting
/// order, are `functions`; `None` when `source` is not a Rust source file.
pub fn generate_bindings(source: &str, functions: &Vec<FnShape>) -> (r: Option<String>)
    ensures
        r is Some <==> rust_file_parses(source@),
        r matches Some(t) ==> t@ == spec_bindings(spec_commands(functions@)),
{
    if parses_as_rust_file(source) {
        Some(bindings_for(functions))
    } else {
        None
    }
}


/// Every Rust integer and float type of at most 64 bits (`i8` to `i64`,
/// `u8` to `u64`, `f32`, `f64`) is a TypeScript `number`, however its
/// tokens are spaced.
pub proof fn lemma_number_types(tokens: Seq<char>)
    requires
        strip_spaces(tokens) == "i8"@ ||
        strip_spaces(tokens) == "i16"@ ||
        strip_spaces(tokens) == "i32"@ ||
        strip_spaces(tokens) == "i64"@ ||
        strip_spaces(tokens) == "u8"@ ||
        strip_spaces(tokens) == "u16"@ ||
        strip_spaces(tokens) == "u32"@ ||
        strip_spaces(tokens) == "u64"@ ||
        strip_spaces(tokens) == "f32"@ ||
        strip_spaces(tokens) == "f64"@,
    ensures
        spec_ts_type(tokens) == "number"@,
{
    let t = strip_spaces(tokens);
    if t == "i8"@ {
        assert(t != "String"@ && t != "&str"@ && t != "bool"@) by {
            reveal_strlit("i8");
            reveal_strlit("String");
            reveal_strlit("&str");
            reveal_strlit("bool");
            assert(t.len() != "String"@.len());
            assert(t.len() != "&str"@.len());
            assert(t.len() != "bool"@.len());
        }
        assert(spec_number_types()[0]@ == t);
    } else if t == "i16"@ {
        assert(t != "String"@ && t != "&str"@ && t != "bool"@) by {
            reveal_strlit("i16");
            reveal_strlit("String");
            reveal_strlit("&str");
            reveal_strlit("bool");
            assert(t.len() != "String"@.len());
            assert(t.len() != "&str"@.len());
            assert(t.len() != "bool"@.len());
        }
        assert(spec_number_types()[1]@ == t);
    } else if t == "i32"@ {
        assert(t != "String"@ && t != "&str"@ && t != "bool"@) by {
            reveal_strlit("i32");
            reveal_strlit("String");
            reveal_strlit("&str");
            reveal_strlit("bool");
            assert(t.len() != "String"@.len());
            assert(t.len() != "&str"@.len());
            assert(t.len() != "bool"@.len());
        }
        assert(spec_number_types()[2]@ == t);
    } else if t == "i64"@ {
        assert(t != "String"@ && t != "&str"@ && t != "bool"@) by {
            reveal_strlit("i64");
            reveal_strlit("String");
            reveal_strlit("&str");
            reveal_strlit("bool");
            assert(t.len() != "String"@.len());
            assert(t.len() != "&str"@.len());
            assert(t.len() != "bool"@.len());
        }
        assert(spec_number_types()[3]@ == t);
    } else if t == "u8"@ {
        assert(t != "String"@ && t != "&str"@ && t != "bool"@) by {
            reveal_strlit("u8");
            reveal_strlit("String");
            reveal_strlit("&str");
            reveal_strlit("bool");
            assert(t.len() != "String"@.len());
            assert(t.len() != "&str"@.len());
            assert(t.len() != "bool"@.len());
        }
        assert(spec_number_types()[4]@ == t);
    } else if t == "u16"@ {
        assert(t != "String"@ && t != "&str"@ && t != "bool"@) by {
            reveal_strlit("u16");
            reveal_strlit("String");
            reveal_strlit("&str");
            reveal_strlit("bool");
            assert(t.len() != "String"@.len());
            assert(t.len() != "&str"@.len());
            assert(t.len() != "bool"@.len());
        }
        assert(spec_number_types()[5]@ == t);
    } else if t == "u32"@ {
        assert(t != "String"@ && t != "&str"@ && t != "bool"@) by {
            reveal_strlit("u32");
            reveal_strlit("String");
            reveal_strlit("&str");
            reveal_strlit("bool");
            assert(t.len() != "String"@.len());
            assert(t.len() != "&str"@.len());
            assert(t.len() != "bool"@.len());
        }
        assert(spec_number_types()[6]@ == t);
    } else if t == "u64"@ {
        assert(t != "String"@ && t != "&str"@ && t != "bool"@) by {
            reveal_strlit("u64");
            reveal_strlit("String");
            reveal_strlit("&str");
            reveal_strlit("bool");
            assert(t.len() != "String"@.len());
            assert(t.len() != "&str"@.len());
            assert(t.len() != "bool"@.len());
        }
        assert(spec_number_types()[7]@ == t);
    } else if t == "f32"@ {
        assert(t != "String"@ && t != "&str"@ && t != "bool"@) by {
            reveal_strlit("f32");
            reveal_strlit("String");
            reveal_strlit("&str");
            reveal_strlit("bool");
            assert(t.len() != "String"@.len());
            assert(t.len() != "&str"@.len());
            assert(t.len() != "bool"@.len());
        }
        assert(spec_number_types()[8]@ == t);
    } else if t == "f64"@ {
        assert(t != "String"@ && t != "&str"@ && t != "bool"@) by {
            reveal_strlit("f64");
            reveal_strlit("String");
            reveal_strlit("&str");
            reveal_strlit("bool");
            assert(t.len() != "String"@.len());
            assert(t.len() != "&str"@.len());
            assert(t.len() != "bool"@.len());
        }
        assert(spec_number_types()[9]@ == t);
    }
}

/// `String` and `&str` are TypeScript strings, however spaced.
pub proof fn lemma_string_types(tokens: Seq<char>)
    requires
        strip_spaces(tokens) == "String"@ || strip_spaces(tokens) == "&str"@,
    ensures
        spec_ts_type(tokens) == "string"@,
{
}

/// `bool` is a TypeScript boolean, however spaced.
pub proof fn lemma_bool_type(tokens: Seq<char>)
    requires
        strip_spaces(tokens) == "bool"@,
    ensures
        spec_ts_type(tokens) == "boolean"@,
{
    let t = strip_spaces(tokens);
    assert(t != "String"@ && t != "&str"@) by {
        reveal_strlit("bool");
        reveal_strlit("String");
        reveal_strlit("&str");
        assert(t.len() != "String"@.len());
        assert(t[0] != "&str"@[0]);
    }
}

/// Every other type (vectors, options, `usize`, structs, ...) is `any`.
pub proof fn lemma_other_types_any(tokens: Seq<char>)
    requires
        strip_spaces(tokens) != "String"@,
        strip_spaces(tokens) != "&str"@,
        strip_spaces(tokens) != "bool"@,
        strip_spaces(tokens) != "i8"@,
        strip_spaces(tokens) != "i16"@,
        strip_spaces(tokens) != "i32"@,
        strip_spaces(tokens) != "i64"@,
        strip_spaces(tokens) != "u8"@,
        strip_spaces(tokens) != "u16"@,
        strip_spaces(tokens) != "u32"@,
        strip_spaces(tokens) != "u64"@,
        strip_spaces(tokens) != "f32"@,
        strip_spaces(tokens) != "f64"@,
    ensures
        spec_ts_type(tokens) == "any"@,
{
    let t = strip_spaces(tokens);
    if exists|i: int| 0 <= i < spec_number_types().len() && (#[trigger] spec_number_types()[i])@ == t {
        let i = choose|i: int| 0 <= i < spec_number_types().len() && (#[trigger] spec_number_types()[i])@ == t;
        if i == 0 {
            assert(spec_number_types()[0]@ == "i8"@);
        } else if i == 1 {
            assert(spec_number_types()[1]@ == "i16"@);
        } else if i == 2 {
            assert(spec_number_types()[2]@ == "i32"@);
        } else if i == 3 {
            assert(spec_number_types()[3]@ == "i64"@);
        } else if i == 4 {
            assert(spec_number_types()[4]@ == "u8"@);
        } else if i == 5 {
            assert(spec_number_types()[5]@ == "u16"@);
        } else if i == 6 {
            assert(spec_number_types()[6]@ == "u32"@);
        } else if i == 7 {
            assert(spec_number_types()[7]@ == "u64"@);
        } else if i == 8 {
            assert(spec_number_types()[8]@ == "f32"@);
        } else if i == 9 {
            assert(spec_number_types()[9]@ == "f64"@);
        }
    }
}

/// A command that returns `Result<T, E>` resolves to the TypeScript type of
/// `T`; any other return type resolves to its own TypeScript type.
pub proof fn lemma_result_return_type(tokens: String, last_segment: String, ok: String)
    ensures
        last_segment@ == "Result"@ ==> spec_return_ts(
            ReturnShape::Type { tokens, last_segment: Some(last_segment), first_type_arg: Some(ok) },
        ) == spec_ts_type(ok@),
        last_segment@ != "Result"@ ==> spec_return_ts(
            ReturnShape::Type { tokens, last_segment: Some(last_segment), first_type_arg: Some(ok) },
        ) == spec_ts_type(tokens@),
{
}

/// A command without a return type resolves to `void`.
pub proof fn lemma_no_return_type_is_void()
    ensures
        spec_return_ts(ReturnShape::Default) == "void"@,
{
}

} // verus!
