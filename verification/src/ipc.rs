//! The IPC bridge between the page's script and the backend: JSON values,
//! requests and responses, the registry of commands, queued events, and the
//! text that travels between the two sides.
use vstd::prelude::*;
use crate::text::{chars_of, push_char, strip_prefix_str};

verus! {

/// A JSON value. Numbers are held as their decimal text, exactly as written.
#[derive(PartialEq, Debug)]
pub enum JsonValue {
    Null,
    Bool(bool),
    Number(String),
    String(String),
    Array(Vec<JsonValue>),
    Object(Vec<(String, JsonValue)>),
}

/// The value of the first member named `k`.
pub open spec fn json_lookup(entries: Seq<(String, JsonValue)>, k: Seq<char>) -> Option<JsonValue>
    decreases entries.len(),
{
    if entries.len() == 0 {
        None
    } else if entries[0].0@ == k {
        Some(entries[0].1)
    } else {
        json_lookup(entries.drop_first(), k)
    }
}

/// The value of the first member named `k`.
fn json_member<'a>(entries: &'a Vec<(String, JsonValue)>, key: &str) -> (r: Option<&'a JsonValue>)
    ensures
        match r {
            Some(v) => json_lookup(entries@, key@) == Some(*v),
            None => json_lookup(entries@, key@) is None,
        },
{
    let ghost es = entries@;
    assert(es.subrange(0, es.len() as int) =~= es);
    let mut i: usize = 0;
    while i < entries.len()
        invariant
            es == entries@,
            i <= es.len(),
            json_lookup(es, key@) == json_lookup(es.subrange(i as int, es.len() as int), key@),
        decreases es.len() - i,
    {
        let ghost rest = es.subrange(i as int, es.len() as int);
        assert(rest[0] == es[i as int]);
        assert(rest.drop_first() =~= es.subrange(i + 1, es.len() as int));
        if crate::text::str_eq(entries[i].0.as_str(), key) {
            return Some(&entries[i].1);
        }
        i = i + 1;
    }
    None
}

impl JsonValue {
    /// The member `key` of an object; `None` for a missing member or a
    /// value that is not an object.
    pub fn get(&self, key: &str) -> (r: Option<&JsonValue>)
        ensures
            match self {
                JsonValue::Object(entries) => match r {
                    Some(v) => json_lookup(entries@, key@) == Some(*v),
                    None => json_lookup(entries@, key@) is None,
                },
                _ => r is None,
            },
    {
        match self {
            JsonValue::Object(entries) => json_member(entries, key),
            _ => None,
        }
    }

    /// The text of a string value; `None` for any other value.
    pub fn as_str(&self) -> (r: Option<&str>)
        ensures
            match self {
                JsonValue::String(s) => r matches Some(t) && t@ == s@,
                _ => r is None,
            },
    {
        match self {
            JsonValue::String(s) => Some(s.as_str()),
            _ => None,
        }
    }
}

/// Errors of the IPC layer.
#[derive(Debug)]
pub enum IpcError {
    /// No command of that name is registered.
    UnknownCommand(String),
    /// A command's arguments do not fit it.
    InvalidArgs(String),
    /// A command's handler failed.
    HandlerError(String),
    /// A value could not be converted to or from JSON.
    Serialization(String),
}

/// The message of an error, as the page sees it.
pub open spec fn spec_error_message(e: IpcError) -> Seq<char> {
    match e {
        IpcError::UnknownCommand(n) => "unknown command: "@ + n@,
        IpcError::InvalidArgs(m) => "invalid arguments: "@ + m@,
        IpcError::HandlerError(m) => "handler error: "@ + m@,
        IpcError::Serialization(m) => "serialization error: "@ + m@,
    }
}

impl IpcError {
    /// The message of the error: its kind, a colon and its detail.
    pub fn message(&self) -> (r: String)
        ensures
            r@ == spec_error_message(*self),
    {
        let (prefix, detail) = match self {
            IpcError::UnknownCommand(n) => ("unknown command: ", n),
            IpcError::InvalidArgs(m) => ("invalid arguments: ", m),
            IpcError::HandlerError(m) => ("handler error: ", m),
            IpcError::Serialization(m) => ("serialization error: ", m),
        };
        let mut s = prefix.to_string();
        s.append(detail.as_str());
        s
    }
}

/// A request from the page: which command, with which arguments.
#[derive(Debug)]
pub struct IpcRequest {
    pub id: u64,
    pub command: String,
    pub args: JsonValue,
}

/// The answer to a request: a result, or an error message.
#[derive(Debug)]
pub struct IpcResponse {
    pub id: u64,
    pub result: Option<JsonValue>,
    pub error: Option<String>,
}

impl IpcResponse {
    /// A successful answer to request `id`.
    pub fn success(id: u64, value: JsonValue) -> (r: IpcResponse)
        ensures
            r.id == id,
            r.result == Some(value),
            r.error is None,
    {
        IpcResponse { id, result: Some(value), error: None }
    }

    /// A failed answer to request `id`.
    pub fn error(id: u64, message: String) -> (r: IpcResponse)
        ensures
            r.id == id,
            r.result is None,
            r.error == Some(message),
    {
        IpcResponse { id, result: None, error: Some(message) }
    }
}

/// `r` is the answer to request `id` whose command gave `outcome`: the value
/// of a success, or the message of a failure.
pub open spec fn answer_of(r: IpcResponse, id: u64, outcome: Result<JsonValue, IpcError>) -> bool {
    &&& r.id == id
    &&& match outcome {
        Ok(v) => r.result == Some(v) && r.error is None,
        Err(e) => r.result is None && (r.error matches Some(m) && m@ == spec_error_message(e)),
    }
}

impl IpcResponse {
    /// The answer to request `id` once its command has run: the value of a
    /// success, or the message of a failure.
    pub fn from_outcome(id: u64, outcome: Result<JsonValue, IpcError>) -> (r: IpcResponse)
        ensures
            answer_of(r, id, outcome),
    {
        match outcome {
            Ok(value) => IpcResponse::success(id, value),
            Err(e) => IpcResponse::error(id, e.message()),
        }
    }
}

/// A command that the page may invoke. Applications implement it.
pub trait CommandHandler {
    /// Whether `outcome` is an answer that this handler gives to `args`. A
    /// handler that does not describe its answers allows every answer.
    closed spec fn answers(&self, args: JsonValue, outcome: Result<JsonValue, IpcError>) -> bool {
        true
    }

    /// Runs the command on `args`.
    fn handle(&self, args: JsonValue) -> (r: Result<JsonValue, IpcError>)
        ensures
            self.answers(args, r),
    ;
}

/// One registered command.
struct Registration {
    name: String,
    handler: Box<dyn CommandHandler>,
}

/// A registration of `handler` under `name`. Boxing a handler as a trait
/// object (std's `Box::new` with an unsizing coercion) keeps its type's
/// methods: calls on the box dispatch to `H`'s `handle`, so the box answers
/// as `handler` does.
#[verifier::external_body]
fn registration<H: CommandHandler + 'static>(name: String, handler: H) -> (r: Registration)
    ensures
        r.name == name,
        forall|a: JsonValue, o: Result<JsonValue, IpcError>|
            #[trigger] r.handler.answers(a, o) == handler.answers(a, o),
{
    Registration { name, handler: Box::new(handler) }
}

/// The commands that the page may invoke, by name. A name is registered at
/// most once; registering it again replaces its handler.
pub struct CommandRegistry {
    entries: Vec<Registration>,
}

/// No name occurs twice.
pub open spec fn names_distinct(names: Seq<Seq<char>>) -> bool {
    forall|i: int, j: int| 0 <= i < j < names.len() ==> names[i] != names[j]
}

/// The names of the entries, in order.
spec fn entry_names(es: Seq<Registration>) -> Seq<Seq<char>> {
    Seq::new(es.len(), |i: int| es[i].name@)
}

/// Whether some entry named `name` holds a handler that answers `args`
/// with `outcome`.
spec fn entries_answer(
    es: Seq<Registration>,
    name: Seq<char>,
    args: JsonValue,
    outcome: Result<JsonValue, IpcError>,
) -> bool {
    exists|i: int| 0 <= i < es.len() && (#[trigger] es[i]).name@ == name && es[i].handler.answers(args, outcome)
}

/// With distinct names, the entry named `es[i].name` is `es[i]`.
proof fn lemma_entry_answers(es: Seq<Registration>, i: int, args: JsonValue, outcome: Result<JsonValue, IpcError>)
    requires
        names_distinct(entry_names(es)),
        0 <= i < es.len(),
    ensures
        entries_answer(es, es[i].name@, args, outcome) == es[i].handler.answers(args, outcome),
{
    if entries_answer(es, es[i].name@, args, outcome) {
        let j = choose|j: int|
            0 <= j < es.len() && (#[trigger] es[j]).name@ == es[i].name@ && es[j].handler.answers(args, outcome);
        if j != i {
            assert(entry_names(es)[i] == entry_names(es)[j]);
            if i < j {
                assert(entry_names(es)[i] != entry_names(es)[j]);
            } else {
                assert(entry_names(es)[j] != entry_names(es)[i]);
            }
        }
    }
    if es[i].handler.answers(args, outcome) {
        assert(es[i].name@ == es[i].name@);
    }
}

/// Replacing the entry at `i` by one of the same name leaves every other
/// name's answers as they were.
proof fn lemma_update_keeps_others(
    es: Seq<Registration>,
    i: int,
    reg: Registration,
    name: Seq<char>,
    args: JsonValue,
    outcome: Result<JsonValue, IpcError>,
)
    requires
        0 <= i < es.len(),
        es[i].name@ == reg.name@,
        name != reg.name@,
    ensures
        entries_answer(es.update(i, reg), name, args, outcome) == entries_answer(es, name, args, outcome),
{
    let nes = es.update(i, reg);
    if entries_answer(nes, name, args, outcome) {
        let j = choose|j: int|
            0 <= j < nes.len() && (#[trigger] nes[j]).name@ == name && nes[j].handler.answers(args, outcome);
        assert(j != i);
        assert(es[j] == nes[j]);
    }
    if entries_answer(es, name, args, outcome) {
        let j = choose|j: int|
            0 <= j < es.len() && (#[trigger] es[j]).name@ == name && es[j].handler.answers(args, outcome);
        assert(j != i);
        assert(nes[j] == es[j]);
    }
}

/// Appending an entry leaves every other name's answers as they were.
proof fn lemma_push_keeps_others(
    es: Seq<Registration>,
    reg: Registration,
    name: Seq<char>,
    args: JsonValue,
    outcome: Result<JsonValue, IpcError>,
)
    requires
        name != reg.name@,
    ensures
        entries_answer(es.push(reg), name, args, outcome) == entries_answer(es, name, args, outcome),
{
    let nes = es.push(reg);
    if entries_answer(nes, name, args, outcome) {
        let j = choose|j: int|
            0 <= j < nes.len() && (#[trigger] nes[j]).name@ == name && nes[j].handler.answers(args, outcome);
        assert(j != es.len());
        assert(es[j] == nes[j]);
    }
    if entries_answer(es, name, args, outcome) {
        let j = choose|j: int|
            0 <= j < es.len() && (#[trigger] es[j]).name@ == name && es[j].handler.answers(args, outcome);
        assert(nes[j] == es[j]);
    }
}

impl CommandRegistry {
    /// The registered names, in order of first registration.
    pub closed spec fn names(&self) -> Seq<Seq<char>> {
        entry_names(self.entries@)
    }

    /// No name is registered twice.
    #[verifier::type_invariant]
    spec fn names_are_distinct(&self) -> bool {
        names_distinct(self.names())
    }

    /// The set of registered names.
    pub open spec fn registered(&self) -> Set<Seq<char>> {
        self.names().to_set()
    }

    /// Whether the handler registered under `name` answers `args` with
    /// `outcome`.
    pub closed spec fn answers(&self, name: Seq<char>, args: JsonValue, outcome: Result<JsonValue, IpcError>) -> bool {
        entries_answer(self.entries@, name, args, outcome)
    }

    /// An empty registry.
    pub fn new() -> (r: CommandRegistry)
        ensures
            r.registered() == Set::<Seq<char>>::empty(),
    {
        let r = CommandRegistry { entries: Vec::new() };
        assert(r.names() =~= Seq::empty());
        assert(r.registered() =~= Set::<Seq<char>>::empty());
        r
    }

    fn position(&self, name: &str) -> (r: Option<usize>)
        ensures
            match r {
                Some(i) => i < self.entries@.len() && self.names()[i as int] == name@,
                None => !self.names().contains(name@),
            },
    {
        let ghost ns = self.names();
        let mut i: usize = 0;
        while i < self.entries.len()
            invariant
                ns == self.names(),
                i <= self.entries@.len(),
                forall|k: int| 0 <= k < i ==> ns[k] != name@,
            decreases self.entries@.len() - i,
        {
            assert(ns[i as int] == self.entries@[i as int].name@);
            if crate::text::str_eq(self.entries[i].name.as_str(), name) {
                return Some(i);
            }
            i = i + 1;
        }
        None
    }

    /// Registers `handler` under `name`, replacing any handler of that
    /// name. The name is then registered and answered by `handler`; every
    /// other name keeps its status and its handler.
    pub fn register<H: CommandHandler + 'static>(&mut self, name: String, handler: H)
        ensures
            final(self).registered() == old(self).registered().insert(name@),
            forall|a: JsonValue, o: Result<JsonValue, IpcError>|
                #[trigger] final(self).answers(name@, a, o) == handler.answers(a, o),
            forall|n: Seq<char>, a: JsonValue, o: Result<JsonValue, IpcError>|
                n != name@ ==> #[trigger] final(self).answers(n, a, o) == old(self).answers(n, a, o),
    {
        proof {
            use_type_invariant(&*self);
        }
        let ghost old_names = self.names();
        let ghost old_es = self.entries@;
        let ghost n = name@;
        let pos = self.position(name.as_str());
        let reg = registration(name, handler);
        let ghost g = reg;
        let mut entries: Vec<Registration> = Vec::new();
        std::mem::swap(&mut entries, &mut self.entries);
        assert(entry_names(entries@) == old_names);
        let ghost idx: int;
        match pos {
            Some(i) => {
                entries.set(i, reg);
                proof {
                    idx = i as int;
                    assert(entries@ == old_es.update(i as int, g));
                    assert(entry_names(entries@) =~= old_names);
                    assert(old_names.to_set().insert(n) =~= old_names.to_set()) by {
                        assert(old_names[i as int] == n);
                    }
                    assert forall|m: Seq<char>, a: JsonValue, o: Result<JsonValue, IpcError>|
                        m != n implies #[trigger] entries_answer(entries@, m, a, o) == entries_answer(old_es, m, a, o) by {
                        assert(old_es[i as int].name@ == old_names[i as int]);
                        lemma_update_keeps_others(old_es, i as int, g, m, a, o);
                    }
                }
            },
            None => {
                entries.push(reg);
                proof {
                    idx = old_es.len() as int;
                    assert(entries@ == old_es.push(g));
                    assert(entry_names(entries@) =~= old_names.push(n));
                    assert(old_names.push(n).to_set() =~= old_names.to_set().insert(n)) by {
                        assert forall|x: Seq<char>| old_names.push(n).contains(x) <==> (old_names.contains(x) || x == n) by {
                            if old_names.contains(x) {
                                let k = choose|k: int| 0 <= k < old_names.len() && old_names[k] == x;
                                assert(old_names.push(n)[k] == x);
                            }
                            if x == n {
                                assert(old_names.push(n)[old_names.len() as int] == x);
                            }
                            if old_names.push(n).contains(x) {
                                let k = choose|k: int| 0 <= k < old_names.len() + 1 && old_names.push(n)[k] == x;
                                if k < old_names.len() {
                                    assert(old_names[k] == x);
                                }
                            }
                        }
                    }
                    assert forall|m: Seq<char>, a: JsonValue, o: Result<JsonValue, IpcError>|
                        m != n implies #[trigger] entries_answer(entries@, m, a, o) == entries_answer(old_es, m, a, o) by {
                        lemma_push_keeps_others(old_es, g, m, a, o);
                    }
                }
            },
        }
        self.entries = entries;
        proof {
            use_type_invariant(&*self);
            assert(self.entries@[idx].name@ == n);
            assert(self.entries@[idx] == g);
            assert forall|a: JsonValue, o: Result<JsonValue, IpcError>|
                #[trigger] self.answers(n, a, o) == handler.answers(a, o) by {
                lemma_entry_answers(self.entries@, idx, a, o);
            }
        }
    }

    /// Whether a command named `name` is registered.
    pub fn has_command(&self, name: &str) -> (r: bool)
        ensures
            r == self.registered().contains(name@),
    {
        self.position(name).is_some()
    }

    /// Runs the handler registered under `name` on `args` and returns its
    /// answer unchanged; an unknown name is an [`IpcError::UnknownCommand`]
    /// holding the name.
    pub fn invoke(&self, name: &str, args: JsonValue) -> (r: Result<JsonValue, IpcError>)
        ensures
            !self.registered().contains(name@) ==> (r matches Err(IpcError::UnknownCommand(n)) && n@ == name@),
            self.registered().contains(name@) ==> self.answers(name@, args, r),
    {
        proof {
            use_type_invariant(self);
        }
        match self.position(name) {
            None => Err(IpcError::UnknownCommand(name.to_owned())),
            Some(i) => {
                let r = self.entries[i].handler.handle(args);
                proof {
                    assert(self.names()[i as int] == self.entries@[i as int].name@);
                    lemma_entry_answers(self.entries@, i as int, args, r);
                }
                r
            },
        }
    }

    /// Answers a request: the outcome of invoking its command, made into an
    /// answer by [`IpcResponse::from_outcome`].
    pub fn respond(&self, request: IpcRequest) -> (r: IpcResponse)
        ensures
            r.id == request.id,
            r.result is Some <==> r.error is None,
            !self.registered().contains(request.command@) ==> (r.error matches Some(m) && m@
                == "unknown command: "@ + request.command@),
            self.registered().contains(request.command@) ==> exists|o: Result<JsonValue, IpcError>|
                self.answers(request.command@, request.args, o) && #[trigger] answer_of(r, request.id, o),
    {
        let outcome = self.invoke(request.command.as_str(), request.args);
        IpcResponse::from_outcome(request.id, outcome)
    }
}

impl Default for CommandRegistry {
    /// An empty registry.
    fn default() -> (r: CommandRegistry)
        ensures
            r.registered() == Set::<Seq<char>>::empty(),
    {
        CommandRegistry::new()
    }
}

/// An event for the page.
#[derive(Debug)]
pub struct EventMessage {
    pub name: String,
    pub payload: JsonValue,
}

/// Events waiting to be sent to the page, in the order they were emitted.
pub struct EventEmitter {
    queue: Vec<EventMessage>,
}

impl EventEmitter {
    pub closed spec fn view(&self) -> Seq<EventMessage> {
        self.queue@
    }

    /// An emitter with nothing queued.
    pub fn new() -> (r: EventEmitter)
        ensures
            r.view() == Seq::<EventMessage>::empty(),
    {
        EventEmitter { queue: Vec::new() }
    }

    /// Queues an event named `name` carrying `payload`.
    pub fn emit(&mut self, name: String, payload: JsonValue)
        ensures
            final(self).view() == old(self).view().push(EventMessage { name, payload }),
    {
        self.queue.push(EventMessage { name, payload });
    }

    /// Takes every queued event, in the order emitted, leaving none queued.
    pub fn drain(&mut self) -> (r: Vec<EventMessage>)
        ensures
            r@ == old(self).view(),
            final(self).view() == Seq::<EventMessage>::empty(),
    {
        let mut out: Vec<EventMessage> = Vec::new();
        std::mem::swap(&mut out, &mut self.queue);
        out
    }
}

impl Default for EventEmitter {
    /// An emitter with nothing queued.
    fn default() -> (r: EventEmitter)
        ensures
            r.view() == Seq::<EventMessage>::empty(),
    {
        EventEmitter::new()
    }
}

/// A registered command is callable: after `register(name, _)` the
/// registry's set of names is `before` with `name` added, so `has_command`
/// answers `true` for `name` and `invoke` never answers it with
/// `UnknownCommand`; every other name keeps its status.
pub proof fn lemma_register_then_callable(before: Set<Seq<char>>, name: Seq<char>, other: Seq<char>)
    ensures
        before.insert(name).contains(name),
        other != name ==> (before.insert(name).contains(other) == before.contains(other)),
{
}

/// The queue after emitting each of `events` in order, one `emit` each, on
/// an emitter holding `queued` (each `emit` appends one event).
pub open spec fn after_emits(queued: Seq<EventMessage>, events: Seq<EventMessage>) -> Seq<EventMessage>
    decreases events.len(),
{
    if events.len() == 0 {
        queued
    } else {
        after_emits(queued, events.drop_last()).push(events.last())
    }
}

/// Events come out as they went in: after any number of emits on an emitter
/// holding `queued`, draining gives `queued` followed by the emitted events,
/// in emission order (and leaves nothing queued).
pub proof fn lemma_drain_keeps_emit_order(queued: Seq<EventMessage>, events: Seq<EventMessage>)
    ensures
        after_emits(queued, events) == queued + events,
    decreases events.len(),
{
    if events.len() > 0 {
        lemma_drain_keeps_emit_order(queued, events.drop_last());
        assert(queued + events =~= (queued + events.drop_last()).push(events.last()));
    } else {
        assert(queued + events =~= queued);
    }
}

/// The marker that starts a console line carrying an IPC request.
pub const IPC_PREFIX: &'static str = "__IPC__:";

/// The request text of a console line that carries one: what follows the
/// marker `__IPC__:`, or `None` for an ordinary console line.
pub fn ipc_payload(message: &str) -> (r: Option<String>)
    ensures
        r is Some <==> crate::text::is_prefix(IPC_PREFIX@, message@),
        r matches Some(p) ==> IPC_PREFIX@ + p@ == message@,
{
    let r = strip_prefix_str(message, IPC_PREFIX);
    proof {
        if r is Some {
            assert(IPC_PREFIX@ + r->0@ =~= message@);
        }
    }
    r
}

/// A character as it is written inside a single-quoted script string.
pub open spec fn escape_char(c: char) -> Seq<char> {
    if c == '\\' {
        seq!['\\', '\\']
    } else if c == '\'' {
        seq!['\\', '\'']
    } else {
        seq![c]
    }
}

/// A text as it is written inside a single-quoted script string: each
/// backslash doubled and each single quote preceded by a backslash.
pub open spec fn escape_js(s: Seq<char>) -> Seq<char>
    decreases s.len(),
{
    if s.len() == 0 {
        Seq::empty()
    } else {
        escape_char(s[0]) + escape_js(s.drop_first())
    }
}

/// Reading a single-quoted script string back: a backslash takes the next
/// character literally.
pub open spec fn unescape_js(s: Seq<char>) -> Seq<char>
    decreases s.len(),
{
    if s.len() == 0 {
        Seq::empty()
    } else if s[0] == '\\' && s.len() >= 2 {
        seq![s[1]] + unescape_js(s.subrange(2, s.len() as int))
    } else {
        seq![s[0]] + unescape_js(s.drop_first())
    }
}

proof fn lemma_escape_append(a: Seq<char>, b: Seq<char>)
    ensures
        escape_js(a + b) == escape_js(a) + escape_js(b),
    decreases a.len(),
{
    if a.len() == 0 {
        assert(a + b =~= b);
    } else {
        assert((a + b).drop_first() =~= a.drop_first() + b);
        lemma_escape_append(a.drop_first(), b);
        assert(escape_js(a + b) =~= escape_char(a[0]) + (escape_js(a.drop_first()) + escape_js(b)));
    }
}

/// Escaping loses nothing: reading an escaped text back gives the text.
pub proof fn lemma_unescape_escape(s: Seq<char>)
    ensures
        unescape_js(escape_js(s)) == s,
    decreases s.len(),
{
    if s.len() > 0 {
        lemma_unescape_escape(s.drop_first());
        let e = escape_js(s);
        let rest = escape_js(s.drop_first());
        if s[0] == '\\' || s[0] == '\'' {
            assert(e.subrange(2, e.len() as int) =~= rest);
            assert(unescape_js(e) =~= seq![s[0]] + s.drop_first());
        } else {
            assert(e.drop_first() =~= rest);
            assert(unescape_js(e) =~= seq![s[0]] + s.drop_first());
        }
        assert(seq![s[0]] + s.drop_first() =~= s);
    }
}

/// The text of `s` escaped for a single-quoted script string.
pub fn escape_for_script(s: &str) -> (r: String)
    ensures
        r@ == escape_js(s@),
{
    let cs = chars_of(s);
    let mut out = String::new();
    let mut i: usize = 0;
    assert(s@.take(0) =~= Seq::<char>::empty());
    while i < cs.len()
        invariant
            cs@ == s@,
            i <= cs@.len(),
            out@ == escape_js(s@.take(i as int)),
        decreases cs@.len() - i,
    {
        let c = cs[i];
        proof {
            assert(s@.take(i + 1) =~= s@.take(i as int) + seq![c]);
            lemma_escape_append(s@.take(i as int), seq![c]);
            assert(seq![c].drop_first() =~= Seq::<char>::empty());
            assert(escape_js(Seq::<char>::empty()) =~= Seq::<char>::empty());
            assert(escape_js(seq![c]) =~= escape_char(c));
        }
        if c == '\\' {
            push_char(&mut out, '\\');
            push_char(&mut out, '\\');
        } else if c == '\'' {
            push_char(&mut out, '\\');
            push_char(&mut out, '\'');
        } else {
            push_char(&mut out, c);
        }
        assert(out@ =~= escape_js(s@.take(i as int)) + escape_char(c));
        i = i + 1;
    }
    assert(s@.take(cs@.len() as int) =~= s@);
    out
}

/// The script that hands a serialized response to the page:
/// `window.__runtime._handleResponse('<escaped response>')`.
pub fn response_script(response_json: &str) -> (r: String)
    ensures
        r@ == "window.__runtime._handleResponse('"@ + escape_js(response_json@) + "')"@,
{
    let mut s = "window.__runtime._handleResponse('".to_string();
    let e = escape_for_script(response_json);
    s.append(e.as_str());
    s.append("')");
    s
}

/// The script injected into every page before the application's own: it
/// defines `window.__runtime.invoke()` and `window.__runtime.on()`.
pub const BRIDGE_JS: &'static str = r#"
(function() {
    "use strict";

    const pending = new Map();
    const listeners = new Map();
    let nextId = 1;

    window.__runtime = {
        invoke(command, args) {
            return new Promise((resolve, reject) => {
                const id = nextId++;
                pending.set(id, { resolve, reject });
                window.__runtime._send(JSON.stringify({ id, command, args: args || {} }));
            });
        },

        on(event, callback) {
            if (!listeners.has(event)) {
                listeners.set(event, []);
            }
            listeners.get(event).push(callback);
        },

        _handleResponse(msg) {
            const { id, result, error } = JSON.parse(msg);
            const p = pending.get(id);
            if (!p) return;
            pending.delete(id);
            if (error) {
                p.reject(new Error(error));
            } else {
                p.resolve(result);
            }
        },

        _handleEvent(msg) {
            const { name, payload } = JSON.parse(msg);
            const cbs = listeners.get(name);
            if (cbs) {
                for (const cb of cbs) {
                    try { cb(payload); } catch(e) { console.error(e); }
                }
            }
        },

        _send(json) {
            console.log("__IPC__:" + json);
        },
    };
})();
"#;

} // verus!
