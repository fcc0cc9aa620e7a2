//! The `#[command]` attribute: the items it adds after a function so that
//! the page may invoke it. For a function `f`, the attribute adds a handler
//! type `__command_handler_f` whose `handle` reads each parameter from the
//! JSON arguments by its name (a missing member reads as `null`), calls `f`,
//! turns an `Err` of a function that returns a `Result` into a handler
//! error, and serializes the result; and the constant `NAME`, the command's
//! name. Here the added items are produced as Rust source text.
use vstd::prelude::*;
use crate::bindgen::{FnShape, ParamShape, ReturnShape, spec_join, join_strings};
use crate::strset::strs_view;
use crate::text::{contains_seq, contains_str, concat, to_owned_string};

verus! {

/// The parameters bound to a plain name, as (name, type tokens) pairs, in
/// order; receivers and patterns are left out.
pub open spec fn named_params(params: Seq<ParamShape>) -> Seq<(Seq<char>, Seq<char>)>
    decreases params.len(),
{
    if params.len() == 0 {
        Seq::empty()
    } else {
        let rest = named_params(params.drop_last());
        match params.last() {
            ParamShape::Named { name, type_tokens } => rest.push((name@, type_tokens@)),
            ParamShape::Other => rest,
        }
    }
}

/// The statement that reads parameter `p` from the arguments.
pub open spec fn spec_arg_extraction(p: (Seq<char>, Seq<char>)) -> Seq<char> {
    "        let "@ + p.0 + ": "@ + p.1 + " = serde_json::from_value(args.get(\""@ + p.0
        + "\").cloned().unwrap_or(serde_json::Value::Null)).map_err(|e| runtime_ipc::IpcError::InvalidArgs(format!(\"field '{}': {}\", \""@
        + p.0 + "\", e)))?;\n"@
}

/// The statements that read all parameters, in order.
pub open spec fn spec_arg_extractions(ps: Seq<(Seq<char>, Seq<char>)>) -> Seq<char>
    decreases ps.len(),
{
    if ps.len() == 0 {
        Seq::empty()
    } else {
        spec_arg_extractions(ps.drop_last()) + spec_arg_extraction(ps.last())
    }
}

/// A function returns a `Result` when the tokens of its return type
/// mention `Result`.
pub open spec fn spec_returns_result(output: ReturnShape) -> bool {
    match output {
        ReturnShape::Default => false,
        ReturnShape::Type { tokens, .. } => contains_seq(tokens@, "Result"@),
    }
}

/// The call of the function and the serialization of its result.
pub open spec fn spec_call(name: Seq<char>, ps: Seq<(Seq<char>, Seq<char>)>, returns_result: bool) -> Seq<char> {
    let call = name + "("@ + spec_join(Seq::new(ps.len(), |i: int| ps[i].0), ", "@) + ")"@;
    (if returns_result {
        "        let result = "@ + call + ".map_err(|e| runtime_ipc::IpcError::HandlerError(e.to_string()))?;\n"@
    } else {
        "        let result = "@ + call + ";\n"@
    }) + "        serde_json::to_value(result).map_err(runtime_ipc::IpcError::Serialization)\n"@
}

/// The name of the handler type of function `name`.
pub open spec fn spec_handler_name(name: Seq<char>) -> Seq<char> {
    "__command_handler_"@ + name
}

/// The items added after function `name` with parameters `ps`.
pub open spec fn spec_command_expansion(
    name: Seq<char>,
    ps: Seq<(Seq<char>, Seq<char>)>,
    returns_result: bool,
) -> Seq<char> {
    let h = spec_handler_name(name);
    "pub struct "@ + h + ";\n\nimpl runtime_ipc::command::CommandHandler for "@ + h
        + " {\n    fn handle(&self, args: serde_json::Value) -> Result<serde_json::Value, runtime_ipc::IpcError> {\n"@
        + spec_arg_extractions(ps) + spec_call(name, ps, returns_result) + "    }\n}\n\nimpl "@ + h
        + " {\n    pub const NAME: &'static str = \""@ + name + "\";\n}\n"@
}

/// The statement that reads parameter `name` of type `ty`.
fn arg_extraction(name: &str, ty: &str) -> (r: String)
    ensures
        r@ == spec_arg_extraction((name@, ty@)),
{
    let mut s = "        let ".to_string();
    s.append(name);
    s.append(": ");
    s.append(ty);
    s.append(" = serde_json::from_value(args.get(\"");
    s.append(name);
    s.append(
        "\").cloned().unwrap_or(serde_json::Value::Null)).map_err(|e| runtime_ipc::IpcError::InvalidArgs(format!(\"field '{}': {}\", \"",
    );
    s.append(name);
    s.append("\", e)))?;\n");
    s
}

/// Whether a return type mentions `Result`.
fn returns_result(output: &ReturnShape) -> (r: bool)
    ensures
        r == spec_returns_result(*output),
{
    match output {
        ReturnShape::Default => false,
        ReturnShape::Type { tokens, .. } => contains_str(tokens.as_str(), "Result"),
    }
}

/// The items that `#[command]` adds after function `f`, as Rust source.
/// Parameters that are not bound to a plain name are left out, both from
/// what is read from the arguments and from the call.
pub fn command_expansion(f: &FnShape) -> (r: String)
    ensures
        r@ == spec_command_expansion(f.name@, named_params(f.params@), spec_returns_result(f.output)),
{
    let ghost params = f.params@;
    let mut extractions = String::new();
    let mut names: Vec<String> = Vec::new();
    let mut i: usize = 0;
    assert(params.take(0) =~= Seq::<ParamShape>::empty());
    assert(strs_view(names@) =~= Seq::<Seq<char>>::empty());
    while i < f.params.len()
        invariant
            params == f.params@,
            i <= params.len(),
            extractions@ == spec_arg_extractions(named_params(params.take(i as int))),
            strs_view(names@) == Seq::new(
                named_params(params.take(i as int)).len(),
                |k: int| named_params(params.take(i as int))[k].0,
            ),
        decreases params.len() - i,
    {
        let ghost ps = named_params(params.take(i as int));
        assert(params.take(i + 1).drop_last() =~= params.take(i as int));
        assert(params.take(i + 1).last() == params[i as int]);
        match &f.params[i] {
            ParamShape::Named { name, type_tokens } => {
                let line = arg_extraction(name.as_str(), type_tokens.as_str());
                let ghost ps2 = named_params(params.take(i + 1));
                assert(ps2 == ps.push((name@, type_tokens@)));
                assert(ps2.drop_last() =~= ps);
                extractions.append(line.as_str());
                let ghost before = names@;
                let owned = to_owned_string(name.as_str());
                names.push(owned);
                proof {
                    assert(strs_view(before).len() == ps.len());
                    assert(names@ == before.push(names@.last()));
                    assert(strs_view(names@) =~= Seq::new(ps2.len(), |k: int| ps2[k].0)) by {
                        assert forall|k: int| 0 <= k < ps2.len() implies #[trigger] strs_view(names@)[k] == ps2[k].0 by {
                            if k < ps.len() {
                                assert(names@[k] == before[k]);
                                assert(strs_view(before)[k] == ps[k].0);
                            }
                        }
                    }
                }
            },
            ParamShape::Other => {
                assert(named_params(params.take(i + 1)) == ps);
            },
        }
        i = i + 1;
    }
    let ghost ps = named_params(params);
    assert(params.take(params.len() as int) =~= params);
    let args = join_strings(&names, ", ");
    let handler = concat("__command_handler_", f.name.as_str());
    let mut call = f.name.clone();
    call.append("(");
    call.append(args.as_str());
    call.append(")");
    let mut s = "pub struct ".to_string();
    s.append(handler.as_str());
    s.append(";\n\nimpl runtime_ipc::command::CommandHandler for ");
    s.append(handler.as_str());
    s.append(
        " {\n    fn handle(&self, args: serde_json::Value) -> Result<serde_json::Value, runtime_ipc::IpcError> {\n",
    );
    s.append(extractions.as_str());
    s.append("        let result = ");
    s.append(call.as_str());
    if returns_result(&f.output) {
        s.append(".map_err(|e| runtime_ipc::IpcError::HandlerError(e.to_string()))?;\n");
    } else {
        s.append(";\n");
    }
    s.append("        serde_json::to_value(result).map_err(runtime_ipc::IpcError::Serialization)\n");
    s.append("    }\n}\n\nimpl ");
    s.append(handler.as_str());
    s.append(" {\n    pub const NAME: &'static str = \"");
    s.append(f.name.as_str());
    s.append("\";\n}\n");
    s
}

/// The whole output of `#[command]` on a function whose source text is
/// `item` and whose signature is `f`: the function itself, unchanged, then
/// the items the attribute adds.
pub fn expand_command(item: &str, f: &FnShape) -> (r: String)
    ensures
        r@ == item@ + "\n\n"@ + spec_command_expansion(
            f.name@,
            named_params(f.params@),
            spec_returns_result(f.output),
        ),
{
    let mut out = item.to_string();
    out.append("\n\n");
    let added = command_expansion(f);
    out.append(added.as_str());
    out
}

} // verus!
