//! The configuration of an application window before it is launched.
use vstd::prelude::*;
use crate::ipc::{CommandHandler, CommandRegistry, IpcError, JsonValue};

verus! {

/// Title, size, start page and commands of an application, gathered before
/// the window opens.
pub struct AppBuilder {
    title: String,
    width: i32,
    height: i32,
    url: String,
    commands: CommandRegistry,
}

/// The model of a builder: title, logical size and start URL.
pub struct AppBuilderView {
    pub title: Seq<char>,
    pub width: i32,
    pub height: i32,
    pub url: Seq<char>,
}

impl AppBuilder {
    pub closed spec fn view(&self) -> AppBuilderView {
        AppBuilderView { title: self.title@, width: self.width, height: self.height, url: self.url@ }
    }

    /// The registered command names.
    pub closed spec fn commands_registered(&self) -> Set<Seq<char>> {
        self.commands.registered()
    }

    /// Whether the command registered under `name` answers `args` with
    /// `outcome`.
    pub closed spec fn command_answers(&self, name: Seq<char>, args: JsonValue, outcome: Result<JsonValue, IpcError>) -> bool {
        self.commands.answers(name, args, outcome)
    }

    /// `self` and `other` hold the same commands, answered alike.
    pub open spec fn same_commands(&self, other: AppBuilder) -> bool {
        &&& self.commands_registered() == other.commands_registered()
        &&& forall|n: Seq<char>, a: JsonValue, o: Result<JsonValue, IpcError>|
            #[trigger] self.command_answers(n, a, o) == other.command_answers(n, a, o)
    }

    /// The defaults: titled `Servo Runtime`, 1024 by 768, showing
    /// `about:blank`, with no commands.
    pub fn new() -> (r: AppBuilder)
        ensures
            r.view() == (AppBuilderView {
                title: "Servo Runtime"@,
                width: 1024,
                height: 768,
                url: "about:blank"@,
            }),
            r.commands_registered() == Set::<Seq<char>>::empty(),
    {
        AppBuilder {
            title: "Servo Runtime".to_string(),
            width: 1024,
            height: 768,
            url: "about:blank".to_string(),
            commands: CommandRegistry::new(),
        }
    }

    /// Sets the window title.
    pub fn title(self, title: String) -> (r: AppBuilder)
        ensures
            r.view() == (AppBuilderView { title: title@, ..self.view() }),
            r.same_commands(self),
    {
        AppBuilder { title, ..self }
    }

    /// Sets the initial window size, in logical pixels.
    pub fn size(self, width: i32, height: i32) -> (r: AppBuilder)
        ensures
            r.view() == (AppBuilderView { width, height, ..self.view() }),
            r.same_commands(self),
    {
        AppBuilder { width, height, ..self }
    }

    /// Sets the page to load first, by its URL.
    pub fn url(self, url: String) -> (r: AppBuilder)
        ensures
            r.view() == (AppBuilderView { url: url@, ..self.view() }),
            r.same_commands(self),
    {
        AppBuilder { url, ..self }
    }

    /// Registers a command that the page may invoke.
    pub fn command<H: CommandHandler + 'static>(self, name: String, handler: H) -> (r: AppBuilder)
        ensures
            r.view() == self.view(),
            r.commands_registered() == self.commands_registered().insert(name@),
            forall|a: JsonValue, o: Result<JsonValue, IpcError>|
                #[trigger] r.command_answers(name@, a, o) == handler.answers(a, o),
            forall|n: Seq<char>, a: JsonValue, o: Result<JsonValue, IpcError>|
                n != name@ ==> #[trigger] r.command_answers(n, a, o) == self.command_answers(n, a, o),
    {
        let mut b = self;
        b.commands.register(name, handler);
        b
    }

    /// The window title.
    pub fn window_title(&self) -> (r: &str)
        ensures
            r@ == self.view().title,
    {
        self.title.as_str()
    }

    /// The start URL.
    pub fn start_url(&self) -> (r: &str)
        ensures
            r@ == self.view().url,
    {
        self.url.as_str()
    }

    /// The window's inner size in pixels: each dimension, negative ones
    /// taken as zero.
    pub fn window_size(&self) -> (r: (u32, u32))
        ensures
            r.0 as int == if self.view().width < 0 { 0 } else { self.view().width as int },
            r.1 as int == if self.view().height < 0 { 0 } else { self.view().height as int },
    {
        let w: u32 = if self.width < 0 { 0 } else { self.width as u32 };
        let h: u32 = if self.height < 0 { 0 } else { self.height as u32 };
        (w, h)
    }

    /// The registered commands, handed over for the window to answer.
    pub fn into_commands(self) -> (r: CommandRegistry)
        ensures
            r.registered() == self.commands_registered(),
            forall|n: Seq<char>, a: JsonValue, o: Result<JsonValue, IpcError>|
                #[trigger] r.answers(n, a, o) == self.command_answers(n, a, o),
    {
        self.commands
    }
}

impl Default for AppBuilder {
    /// The defaults of [`AppBuilder::new`].
    fn default() -> (r: AppBuilder)
        ensures
            r.view() == (AppBuilderView {
                title: "Servo Runtime"@,
                width: 1024,
                height: 768,
                url: "about:blank"@,
            }),
            r.commands_registered() == Set::<Seq<char>>::empty(),
    {
        AppBuilder::new()
    }
}

} // verus!
