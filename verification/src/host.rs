//! What the toggle asks of its surroundings and what it is told in return:
//! the client's context indicator, and the command lines that tmux is run
//! with.

use crate::naming::{HandleNames, SessionHandle};
use vstd::prelude::*;

verus! {

/// The program that every host command runs.
pub const HOST_PROGRAM: &'static str = "tmux";

/// The environment variable that holds the client's context indicator.
pub const CONTEXT_VARIABLE: &'static str = "TMUX";

/// One call of the host program.
#[derive(Debug, PartialEq, Eq)]
pub enum HostCommand {
    /// Print the name of the session that the client is in.
    QueryParent,
    /// Detach the client that is attached on the handle's socket.
    Detach(SessionHandle),
    /// Tell by the exit status whether the handle's session exists.
    HasSession(SessionHandle),
    /// Start the handle's session in the background, running the command if
    /// there is one.
    NewSession(SessionHandle, Option<String>),
    /// Switch the status line of the handle's session off.
    StatusOff(SessionHandle),
    /// Show the handle's session in an overlay, and return when it closes.
    Popup(SessionHandle),
}

/// A host command over texts.
pub ghost enum HostCommandView {
    QueryParent,
    Detach(HandleNames),
    HasSession(HandleNames),
    NewSession(HandleNames, Option<Seq<char>>),
    StatusOff(HandleNames),
    Popup(HandleNames),
}

impl View for HostCommand {
    type V = HostCommandView;

    open spec fn view(&self) -> HostCommandView {
        match self {
            HostCommand::QueryParent => HostCommandView::QueryParent,
            HostCommand::Detach(handle) => HostCommandView::Detach(handle@),
            HostCommand::HasSession(handle) => HostCommandView::HasSession(handle@),
            HostCommand::NewSession(handle, command) => HostCommandView::NewSession(
                handle@,
                command.deep_view(),
            ),
            HostCommand::StatusOff(handle) => HostCommandView::StatusOff(handle@),
            HostCommand::Popup(handle) => HostCommandView::Popup(handle@),
        }
    }
}

/// The command that the overlay runs: a nested client that attaches to the
/// session on its socket.
pub open spec fn attach_line(names: HandleNames) -> Seq<char> {
    HOST_PROGRAM@ + " -L "@ + names.socket_name + " attach -t \""@ + names.session_name + "\""@
}

/// The arguments that the host program is run with for `command`.
pub open spec fn arguments_of(command: HostCommandView) -> Seq<Seq<char>> {
    match command {
        HostCommandView::QueryParent => seq!["display-message"@, "-p"@, "#{session_name}"@],
        HostCommandView::Detach(names) => seq!["-L"@, names.socket_name, "detach-client"@],
        HostCommandView::HasSession(names) => seq![
            "-L"@,
            names.socket_name,
            "has-session"@,
            "-t"@,
            names.session_name,
        ],
        HostCommandView::NewSession(names, command) => {
            let fixed = seq![
                "-L"@,
                names.socket_name,
                "new-session"@,
                "-d"@,
                "-s"@,
                names.session_name,
            ];
            match command {
                Some(text) => fixed.push(text),
                None => fixed,
            }
        },
        HostCommandView::StatusOff(names) => seq![
            "-L"@,
            names.socket_name,
            "set-option"@,
            "-t"@,
            names.session_name,
            "status"@,
            "off"@,
        ],
        HostCommandView::Popup(names) => seq![
            "popup"@,
            "-d"@,
            "#{pane_current_path}"@,
            "-xC"@,
            "-yC"@,
            "-w95%"@,
            "-h95%"@,
            "-E"@,
            attach_line(names),
        ],
    }
}

/// What the toggle asks of its surroundings.
#[derive(Debug, PartialEq, Eq)]
pub enum Request {
    /// Read the client's context indicator as it is now.
    ReadContext,
    /// Run the host program and wait until it ends.
    Run(HostCommand),
}

/// A request over texts.
pub ghost enum RequestView {
    ReadContext,
    Run(HostCommandView),
}

impl View for Request {
    type V = RequestView;

    open spec fn view(&self) -> RequestView {
        match self {
            Request::ReadContext => RequestView::ReadContext,
            Request::Run(command) => RequestView::Run(command@),
        }
    }
}

/// What the surroundings tell the toggle in return.
#[derive(Debug, PartialEq, Eq)]
pub enum Reply {
    /// What the context indicator reads; `None` where it is not set.
    Context(Option<String>),
    /// The host program ran and ended: whether it reported success, its exit
    /// code if it has one, and what it printed where that was captured.
    Completed { success: bool, code: Option<i32>, output: Vec<u8> },
    /// The host program could not be run.
    Unreachable,
}

/// A reply over texts.
pub ghost enum ReplyView {
    Context(Option<Seq<char>>),
    Completed { success: bool, code: Option<i32>, output: Seq<u8> },
    Unreachable,
}

impl View for Reply {
    type V = ReplyView;

    open spec fn view(&self) -> ReplyView {
        match self {
            Reply::Context(context) => ReplyView::Context(context.deep_view()),
            Reply::Completed { success, code, output } => ReplyView::Completed {
                success: *success,
                code: *code,
                output: output@,
            },
            Reply::Unreachable => ReplyView::Unreachable,
        }
    }
}

/// The context indicator that `reply` brings. Any other reply brings none.
pub open spec fn context_in(reply: ReplyView) -> Option<Seq<char>> {
    match reply {
        ReplyView::Context(context) => context,
        _ => None,
    }
}

/// Whether `reply` says that the host program ran, whatever came of it.
pub open spec fn ran(reply: ReplyView) -> bool {
    reply is Completed
}

/// Whether `reply` says that the host program ran and reported success.
pub open spec fn succeeded(reply: ReplyView) -> bool {
    reply matches ReplyView::Completed { success, .. } && success
}

/// The exit status that the overlay's exit code stands for: the code itself,
/// and 1 where the host program ended without one.
pub open spec fn exit_status_of(code: Option<i32>) -> i32 {
    match code {
        Some(value) => value,
        None => 1,
    }
}

/// Whether the session exists, going by the reply to the existence check:
/// it does where the host reported success. A check that could not be made
/// counts as a session that is not there.
pub fn session_exists(reply: &Reply) -> (exists: bool)
    ensures
        exists == succeeded(reply@),
        !ran(reply@) ==> !exists,
{
    match reply {
        Reply::Completed { success, .. } => *success,
        _ => false,
    }
}

impl HostCommand {
    /// Whether what the host prints for this command is to be captured and
    /// handed back in the reply.
    pub fn captures_output(&self) -> (captures: bool)
        ensures
            captures == (self@ is QueryParent),
    {
        match self {
            HostCommand::QueryParent => true,
            _ => false,
        }
    }

    /// The arguments to run the host program with.
    pub fn arguments(&self) -> (args: Vec<String>)
        ensures
            args.deep_view() == arguments_of(self@),
    {
        let mut args: Vec<String> = Vec::new();
        match self {
            HostCommand::QueryParent => {
                args.push(String::from_str("display-message"));
                args.push(String::from_str("-p"));
                args.push(String::from_str("#{session_name}"));
            },
            HostCommand::Detach(handle) => {
                args.push(String::from_str("-L"));
                args.push(handle.socket_name.clone());
                args.push(String::from_str("detach-client"));
            },
            HostCommand::HasSession(handle) => {
                args.push(String::from_str("-L"));
                args.push(handle.socket_name.clone());
                args.push(String::from_str("has-session"));
                args.push(String::from_str("-t"));
                args.push(handle.session_name.clone());
            },
            HostCommand::NewSession(handle, command) => {
                args.push(String::from_str("-L"));
                args.push(handle.socket_name.clone());
                args.push(String::from_str("new-session"));
                args.push(String::from_str("-d"));
                args.push(String::from_str("-s"));
                args.push(handle.session_name.clone());
                match command {
                    Some(text) => {
                        args.push(text.clone());
                    },
                    None => {},
                }
            },
            HostCommand::StatusOff(handle) => {
                args.push(String::from_str("-L"));
                args.push(handle.socket_name.clone());
                args.push(String::from_str("set-option"));
                args.push(String::from_str("-t"));
                args.push(handle.session_name.clone());
                args.push(String::from_str("status"));
                args.push(String::from_str("off"));
            },
            HostCommand::Popup(handle) => {
                let mut line = String::from_str(HOST_PROGRAM);
                line.append(" -L ");
                line.append(handle.socket_name.as_str());
                line.append(" attach -t \"");
                line.append(handle.session_name.as_str());
                line.append("\"");
                args.push(String::from_str("popup"));
                args.push(String::from_str("-d"));
                args.push(String::from_str("#{pane_current_path}"));
                args.push(String::from_str("-xC"));
                args.push(String::from_str("-yC"));
                args.push(String::from_str("-w95%"));
                args.push(String::from_str("-h95%"));
                args.push(String::from_str("-E"));
                args.push(line);
            },
        }
        assert(args.deep_view() =~= arguments_of(self@));
        args
    }
}

} // verus!
