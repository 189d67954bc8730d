//! The external programs that the dispatcher starts, as plain descriptions,
//! and the rule that turns the end of a child process into an outcome.

use crate::error::{outcome_view, ExitStatus, ExitStatusView, OpenError, OpenErrorView};
use crate::text::{trim, trimmed};
use vstd::prelude::*;
use vstd::string::StringExecFns;

verus! {

/// What a child process gets for one of its standard streams.
#[derive(Debug, Clone, Copy, PartialEq, Eq, Structural)]
pub enum Stdio {
    /// The stream is attached to nothing.
    Null,
    /// The stream is a pipe whose other end the parent holds.
    Piped,
    /// The stream is the parent's own.
    Inherit,
}

/// A program to start: its name, looked up on the search path, its arguments
/// and its three standard streams.
#[derive(Debug, Clone, PartialEq, Eq)]
pub struct Invocation {
    pub program: String,
    pub args: Vec<String>,
    pub stdin: Stdio,
    pub stdout: Stdio,
    pub stderr: Stdio,
}

/// The mathematical value of an [`Invocation`].
pub struct InvocationView {
    pub program: Seq<char>,
    pub args: Seq<Seq<char>>,
    pub stdin: Stdio,
    pub stdout: Stdio,
    pub stderr: Stdio,
}

impl View for Invocation {
    type V = InvocationView;

    open spec fn view(&self) -> InvocationView {
        InvocationView {
            program: self.program@,
            args: self.args.deep_view(),
            stdin: self.stdin,
            stdout: self.stdout,
            stderr: self.stderr,
        }
    }
}

impl DeepView for Invocation {
    type V = InvocationView;

    open spec fn deep_view(&self) -> InvocationView {
        self@
    }
}

/// The path to hand to a Windows program: the converted one where the
/// conversion gave one, else the path as it came.
pub open spec fn preferred_path(path: Seq<char>, converted: Option<Seq<char>>) -> Seq<char> {
    match converted {
        Some(windows_path) => windows_path,
        None => path,
    }
}

/// The desktop's own opener on `path`, with every stream attached to nothing.
pub open spec fn system_xdg_open(path: Seq<char>) -> InvocationView {
    InvocationView {
        program: "xdg-open"@,
        args: seq![path],
        stdin: Stdio::Null,
        stdout: Stdio::Null,
        stderr: Stdio::Null,
    }
}

/// A shell that reads the opener script from its input and runs it on `path`.
pub open spec fn internal_xdg_open(path: Seq<char>) -> InvocationView {
    InvocationView {
        program: "sh"@,
        args: seq!["-s"@, path],
        stdin: Stdio::Piped,
        stdout: Stdio::Null,
        stderr: Stdio::Null,
    }
}

/// The viewer of the Windows subsystem on the preferred path, with its error
/// stream piped.
pub open spec fn wslview(path: Seq<char>, converted: Option<Seq<char>>) -> InvocationView {
    InvocationView {
        program: "wslview"@,
        args: seq![preferred_path(path, converted)],
        stdin: Stdio::Null,
        stdout: Stdio::Null,
        stderr: Stdio::Piped,
    }
}

/// The path converter of the Windows subsystem, asked for the Windows form
/// of `path`, with its output piped.
pub open spec fn wslpath(path: Seq<char>) -> InvocationView {
    InvocationView {
        program: "wslpath"@,
        args: seq!["-w"@, path],
        stdin: Stdio::Null,
        stdout: Stdio::Piped,
        stderr: Stdio::Null,
    }
}

/// The Windows file explorer, told to select the preferred path. Its input
/// stays the parent's.
pub open spec fn windows_explorer(path: Seq<char>, converted: Option<Seq<char>>) -> InvocationView {
    InvocationView {
        program: "explorer.exe"@,
        args: seq!["/select,"@, preferred_path(path, converted)],
        stdin: Stdio::Inherit,
        stdout: Stdio::Null,
        stderr: Stdio::Null,
    }
}

/// The launcher of macOS on `path`, with its error stream piped.
pub open spec fn macos_open(path: Seq<char>) -> InvocationView {
    InvocationView {
        program: "open"@,
        args: seq![path],
        stdin: Stdio::Null,
        stdout: Stdio::Null,
        stderr: Stdio::Piped,
    }
}

/// The launcher of macOS, told to reveal `path` in the Finder.
pub open spec fn macos_reveal(path: Seq<char>) -> InvocationView {
    InvocationView {
        program: "open"@,
        args: seq!["-R"@, "--"@, path],
        stdin: Stdio::Null,
        stdout: Stdio::Null,
        stderr: Stdio::Piped,
    }
}

/// The browser that the user named, on the preferred path, with its error
/// stream piped.
pub open spec fn browser(
    program: Seq<char>,
    path: Seq<char>,
    converted: Option<Seq<char>>,
) -> InvocationView {
    InvocationView {
        program,
        args: seq![preferred_path(path, converted)],
        stdin: Stdio::Null,
        stdout: Stdio::Null,
        stderr: Stdio::Piped,
    }
}

/// What the end of a child process means: success where it ended with exit
/// code zero; else the failure that names the command and carries the status
/// and the trimmed text of the error stream, empty where none was read.
pub open spec fn child_outcome(
    cmd: Seq<char>,
    status: ExitStatusView,
    stderr: Option<Seq<char>>,
) -> Result<(), OpenErrorView> {
    if status.success() {
        Ok(())
    } else {
        Err(
            OpenErrorView::ExitStatus {
                cmd,
                status,
                stderr: match stderr {
                    Some(text) => trimmed(text),
                    None => Seq::empty(),
                },
            },
        )
    }
}

/// The path to hand to a Windows program.
pub fn prefer_converted(path: &str, converted: Option<String>) -> (r: String)
    ensures
        r@ == preferred_path(path@, converted.deep_view()),
{
    match converted {
        Some(windows_path) => windows_path,
        None => String::from_str(path),
    }
}

fn one_argument(first: String) -> (args: Vec<String>)
    ensures
        args.deep_view() == seq![first@],
{
    let mut args: Vec<String> = Vec::new();
    args.push(first);
    assert(args.deep_view() =~= seq![first@]);
    args
}

fn two_arguments(first: String, second: String) -> (args: Vec<String>)
    ensures
        args.deep_view() == seq![first@, second@],
{
    let mut args: Vec<String> = Vec::new();
    args.push(first);
    args.push(second);
    assert(args.deep_view() =~= seq![first@, second@]);
    args
}

fn three_arguments(first: String, second: String, third: String) -> (args: Vec<String>)
    ensures
        args.deep_view() == seq![first@, second@, third@],
{
    let mut args: Vec<String> = Vec::new();
    args.push(first);
    args.push(second);
    args.push(third);
    assert(args.deep_view() =~= seq![first@, second@, third@]);
    args
}

/// Describes the desktop's own opener on `path`.
pub fn open_with_system_xdg_open(path: &str) -> (r: Invocation)
    ensures
        r@ == system_xdg_open(path@),
{
    Invocation {
        program: String::from_str("xdg-open"),
        args: one_argument(String::from_str(path)),
        stdin: Stdio::Null,
        stdout: Stdio::Null,
        stderr: Stdio::Null,
    }
}

/// Describes the shell that runs the opener script on `path`. The script
/// itself is written to the shell's input once it runs.
pub fn open_with_internal_xdg_open(path: &str) -> (r: Invocation)
    ensures
        r@ == internal_xdg_open(path@),
{
    Invocation {
        program: String::from_str("sh"),
        args: two_arguments(String::from_str("-s"), String::from_str(path)),
        stdin: Stdio::Piped,
        stdout: Stdio::Null,
        stderr: Stdio::Null,
    }
}

/// Describes the viewer of the Windows subsystem on `path`, or on its
/// Windows form where `converted` holds one.
pub fn open_with_wslview(path: &str, converted: Option<String>) -> (r: Invocation)
    ensures
        r@ == wslview(path@, converted.deep_view()),
{
    Invocation {
        program: String::from_str("wslview"),
        args: one_argument(prefer_converted(path, converted)),
        stdin: Stdio::Null,
        stdout: Stdio::Null,
        stderr: Stdio::Piped,
    }
}

/// Describes the query that converts `path` to its Windows form.
pub fn windows_path_query(path: &str) -> (r: Invocation)
    ensures
        r@ == wslpath(path@),
{
    Invocation {
        program: String::from_str("wslpath"),
        args: two_arguments(String::from_str("-w"), String::from_str(path)),
        stdin: Stdio::Null,
        stdout: Stdio::Piped,
        stderr: Stdio::Null,
    }
}

/// Describes the Windows file explorer selecting `path`, or its Windows form
/// where `converted` holds one.
pub fn reveal_in_windows_explorer(path: &str, converted: Option<String>) -> (r: Invocation)
    ensures
        r@ == windows_explorer(path@, converted.deep_view()),
{
    Invocation {
        program: String::from_str("explorer.exe"),
        args: two_arguments(String::from_str("/select,"), prefer_converted(path, converted)),
        stdin: Stdio::Inherit,
        stdout: Stdio::Null,
        stderr: Stdio::Null,
    }
}

/// Describes the launcher of macOS opening `path`.
pub fn open_with_macos_launcher(path: &str) -> (r: Invocation)
    ensures
        r@ == macos_open(path@),
{
    Invocation {
        program: String::from_str("open"),
        args: one_argument(String::from_str(path)),
        stdin: Stdio::Null,
        stdout: Stdio::Null,
        stderr: Stdio::Piped,
    }
}

/// Describes the launcher of macOS revealing `path`.
pub fn reveal_with_macos_launcher(path: &str) -> (r: Invocation)
    ensures
        r@ == macos_reveal(path@),
{
    Invocation {
        program: String::from_str("open"),
        args: three_arguments(
            String::from_str("-R"),
            String::from_str("--"),
            String::from_str(path),
        ),
        stdin: Stdio::Null,
        stdout: Stdio::Null,
        stderr: Stdio::Piped,
    }
}

/// Describes the browser `program` on `path`, or on its Windows form where
/// `converted` holds one.
pub fn open_with_browser(program: &str, path: &str, converted: Option<String>) -> (r: Invocation)
    ensures
        r@ == browser(program@, path@, converted.deep_view()),
{
    Invocation {
        program: String::from_str(program),
        args: one_argument(prefer_converted(path, converted)),
        stdin: Stdio::Null,
        stdout: Stdio::Null,
        stderr: Stdio::Piped,
    }
}

/// Turns the end of the child started as `cmd_name` into an outcome.
/// `stderr` is what could be read from the child's error stream; `None`
/// where the stream was not piped or could not be read.
pub fn wait_child(cmd_name: &'static str, status: ExitStatus, stderr: Option<String>) -> (r: Result<
    (),
    OpenError,
>)
    ensures
        outcome_view(r) == child_outcome(cmd_name@, status@, stderr.deep_view()),
{
    if status.success() {
        Ok(())
    } else {
        let captured = match stderr {
            Some(text) => trim(text.as_str()),
            None => String::new(),
        };
        Err(OpenError::ExitStatus { cmd: cmd_name, status, stderr: captured })
    }
}

} // verus!
