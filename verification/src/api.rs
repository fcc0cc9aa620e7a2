//! The native APIs whose work is done by the platform: clipboard, dialogs,
//! the default handlers of URLs and files, and window management. Their
//! calls reach the platform from the application layer; here stand the
//! types that name them.
use vstd::prelude::*;

verus! {

/// The system clipboard.
pub struct ClipboardApi;

/// A clipboard failure, with the platform's message.
#[derive(Debug)]
pub struct ClipboardError(pub String);

/// Native file and message dialogs.
pub struct DialogApi;

/// Opening URLs and files with their default handlers.
pub struct ShellApi;

/// A failure to open a URL or file, with the I/O error's message.
#[derive(Debug)]
pub struct ShellError(pub String);

/// Window management: title, minimizing, maximizing, full screen.
pub struct WindowApi;

/// The event that wakes the event loop when the engine has work to do.
#[derive(Debug)]
pub struct WakerEvent;

} // verus!
