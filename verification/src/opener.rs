//! The commands by which the desktop opens an address or a directory.

use vstd::prelude::*;
use vstd::string::StringExecFns;

verus! {

/// The desktop environment that the application runs on.
#[derive(Clone, Copy, Debug, PartialEq, Eq, Structural)]
pub enum Desktop {
    Windows,
    MacOs,
    Linux,
    /// Any other: nothing is known that would open anything there.
    Other,
}

/// A program to start and forget.
#[derive(Debug, PartialEq, Eq)]
pub struct OpenCommand {
    /// The program.
    pub program: String,
    /// Its arguments, in order.
    pub args: Vec<String>,
    /// Whether the platform would open a terminal window for it, which is
    /// to be suppressed.
    pub hide_window: bool,
}

/// The mathematical value of an [`OpenCommand`].
pub struct OpenCommandView {
    pub program: Seq<char>,
    pub args: Seq<Seq<char>>,
    pub hide_window: bool,
}

impl View for OpenCommand {
    type V = OpenCommandView;

    open spec fn view(&self) -> OpenCommandView {
        OpenCommandView {
            program: self.program@,
            args: self.args.deep_view(),
            hide_window: self.hide_window,
        }
    }
}

impl DeepView for OpenCommand {
    type V = OpenCommandView;

    open spec fn deep_view(&self) -> OpenCommandView {
        self@
    }
}

/// The command that opens `url` in the default browser: the shell's `start`
/// on Windows, without a window of its own; `open` on macOS; `xdg-open` on
/// Linux; none elsewhere.
pub open spec fn browser_command_spec(url: Seq<char>, desktop: Desktop) -> Option<OpenCommandView> {
    match desktop {
        Desktop::Windows => Some(
            OpenCommandView {
                program: "cmd"@,
                args: seq!["/C"@, "start"@, ""@, url],
                hide_window: true,
            },
        ),
        Desktop::MacOs => Some(
            OpenCommandView { program: "open"@, args: seq![url], hide_window: false },
        ),
        Desktop::Linux => Some(
            OpenCommandView { program: "xdg-open"@, args: seq![url], hide_window: false },
        ),
        Desktop::Other => None,
    }
}

/// The command that shows `path` in the file manager: `explorer` on
/// Windows, `open` on macOS, `xdg-open` on Linux; none elsewhere.
pub open spec fn file_manager_command_spec(path: Seq<char>, desktop: Desktop) -> Option<
    OpenCommandView,
> {
    match desktop {
        Desktop::Windows => Some(
            OpenCommandView { program: "explorer"@, args: seq![path], hide_window: false },
        ),
        Desktop::MacOs => Some(
            OpenCommandView { program: "open"@, args: seq![path], hide_window: false },
        ),
        Desktop::Linux => Some(
            OpenCommandView { program: "xdg-open"@, args: seq![path], hide_window: false },
        ),
        Desktop::Other => None,
    }
}

/// The command `program target`.
fn plain_command(program: &str, target: &str) -> (command: OpenCommand)
    ensures
        command@ == (OpenCommandView { program: program@, args: seq![target@], hide_window: false }),
{
    let mut args: Vec<String> = Vec::new();
    args.push(String::from_str(target));
    assert(args.deep_view() == seq![target@]);
    OpenCommand { program: String::from_str(program), args, hide_window: false }
}

/// The command that opens `url` in the default browser, if the desktop has one.
pub fn browser_command(url: &str, desktop: Desktop) -> (command: Option<OpenCommand>)
    ensures
        command.deep_view() == browser_command_spec(url@, desktop),
{
    match desktop {
        Desktop::Windows => {
            let mut args: Vec<String> = Vec::new();
            args.push(String::from_str("/C"));
            args.push(String::from_str("start"));
            args.push(String::from_str(""));
            args.push(String::from_str(url));
            assert(args.deep_view() == seq!["/C"@, "start"@, ""@, url@]);
            Some(OpenCommand { program: String::from_str("cmd"), args, hide_window: true })
        },
        Desktop::MacOs => Some(plain_command("open", url)),
        Desktop::Linux => Some(plain_command("xdg-open", url)),
        Desktop::Other => None,
    }
}

/// The command that shows `path` in the file manager, if the desktop has one.
pub fn file_manager_command(path: &str, desktop: Desktop) -> (command: Option<OpenCommand>)
    ensures
        command.deep_view() == file_manager_command_spec(path@, desktop),
{
    match desktop {
        Desktop::Windows => Some(plain_command("explorer", path)),
        Desktop::MacOs => Some(plain_command("open", path)),
        Desktop::Linux => Some(plain_command("xdg-open", path)),
        Desktop::Other => None,
    }
}

} // verus!
