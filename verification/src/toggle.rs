//! The toggle itself: a state machine that is told what the host answered and
//! says what to ask next, until the popup is shown or hidden.

use crate::host::{
    context_in, exit_status_of, ran, session_exists, succeeded, HostCommand, HostCommandView,
    Reply, ReplyView, Request, RequestView,
};
use crate::naming::{attached_to, derived, parent_name, parent_name_in, HandleNames, SessionHandle};
use vstd::prelude::*;

verus! {

/// Why a toggle was given up.
#[derive(Debug, Clone, Copy, PartialEq, Eq, Structural)]
pub enum ToggleError {
    /// The client's context indicator is not set: no host to talk to.
    NotInsideHost,
    /// The host could not be asked for the parent session's name.
    ParentQueryFailed,
    /// The host could not be told to detach the client.
    DetachFailed,
    /// The host could not be told to create the session.
    CreateFailed,
    /// The host could not be told to switch the status line off.
    StatusOffFailed,
    /// The host could not be told to show the overlay.
    PopupFailed,
}

/// The message that goes with `error`.
pub open spec fn message_of(error: ToggleError) -> Seq<char> {
    match error {
        ToggleError::NotInsideHost => "Not running inside a tmux session"@,
        ToggleError::ParentQueryFailed => "Failed to get parent session name"@,
        ToggleError::DetachFailed => "Failed to detach client"@,
        ToggleError::CreateFailed => "Failed to create session"@,
        ToggleError::StatusOffFailed => "Failed to set status off"@,
        ToggleError::PopupFailed => "Failed to show popup"@,
    }
}

impl ToggleError {
    /// The message to show the user.
    pub fn message(&self) -> (text: &'static str)
        ensures
            text@ == message_of(*self),
    {
        match self {
            ToggleError::NotInsideHost => "Not running inside a tmux session",
            ToggleError::ParentQueryFailed => "Failed to get parent session name",
            ToggleError::DetachFailed => "Failed to detach client",
            ToggleError::CreateFailed => "Failed to create session",
            ToggleError::StatusOffFailed => "Failed to set status off",
            ToggleError::PopupFailed => "Failed to show popup",
        }
    }
}

/// Where a toggle stands: what it has asked and not yet been told.
#[derive(Debug, PartialEq, Eq)]
pub enum Toggle {
    /// Asked for the context indicator, to learn whether there is a host.
    CheckingContext { command: Option<String> },
    /// Asked the host for the parent session's name.
    QueryingParent { command: Option<String> },
    /// Asked for the context indicator again, to learn whether the client is
    /// attached to the popup.
    ProbingAttachment { handle: SessionHandle, command: Option<String> },
    /// Asked the host to detach the client.
    Detaching,
    /// Asked the host whether the session exists.
    ProbingExistence { handle: SessionHandle, command: Option<String> },
    /// Asked the host to create the session.
    Creating { handle: SessionHandle },
    /// Asked the host to switch the session's status line off.
    DisablingStatus { handle: SessionHandle },
    /// Asked the host to show the overlay.
    Showing,
}

/// A state of the toggle over texts.
pub ghost enum ToggleView {
    CheckingContext { command: Option<Seq<char>> },
    QueryingParent { command: Option<Seq<char>> },
    ProbingAttachment { names: HandleNames, command: Option<Seq<char>> },
    Detaching,
    ProbingExistence { names: HandleNames, command: Option<Seq<char>> },
    Creating { names: HandleNames },
    DisablingStatus { names: HandleNames },
    Showing,
}

impl View for Toggle {
    type V = ToggleView;

    open spec fn view(&self) -> ToggleView {
        match self {
            Toggle::CheckingContext { command } => ToggleView::CheckingContext {
                command: command.deep_view(),
            },
            Toggle::QueryingParent { command } => ToggleView::QueryingParent {
                command: command.deep_view(),
            },
            Toggle::ProbingAttachment { handle, command } => ToggleView::ProbingAttachment {
                names: handle@,
                command: command.deep_view(),
            },
            Toggle::Detaching => ToggleView::Detaching,
            Toggle::ProbingExistence { handle, command } => ToggleView::ProbingExistence {
                names: handle@,
                command: command.deep_view(),
            },
            Toggle::Creating { handle } => ToggleView::Creating { names: handle@ },
            Toggle::DisablingStatus { handle } => ToggleView::DisablingStatus { names: handle@ },
            Toggle::Showing => ToggleView::Showing,
        }
    }
}

/// What a toggle does next.
#[derive(Debug, PartialEq, Eq)]
pub enum Step {
    /// Make the request and hand the reply to `state`.
    Ask { state: Toggle, request: Request },
    /// Done: leave with this exit status.
    Exit { code: i32 },
    /// Given up: report the error and leave with a failure status.
    Fail { error: ToggleError },
}

/// A step over texts.
pub ghost enum StepView {
    Ask { state: ToggleView, request: RequestView },
    Exit { code: i32 },
    Fail { error: ToggleError },
}

impl View for Step {
    type V = StepView;

    open spec fn view(&self) -> StepView {
        match self {
            Step::Ask { state, request } => StepView::Ask { state: state@, request: request@ },
            Step::Exit { code } => StepView::Exit { code: *code },
            Step::Fail { error } => StepView::Fail { error: *error },
        }
    }
}

/// The first step of a toggle for `command`: to read the context indicator.
pub open spec fn first_step(command: Option<Seq<char>>) -> StepView {
    StepView::Ask {
        state: ToggleView::CheckingContext { command },
        request: RequestView::ReadContext,
    }
}

/// The step that follows when a toggle in `state` is told `reply`.
///
/// A reply of another kind than the one asked for counts as no answer: as a
/// context indicator that is not set, or as a host program that could not be
/// run.
pub open spec fn step_after(state: ToggleView, reply: ReplyView) -> StepView {
    match state {
        ToggleView::CheckingContext { command } => {
            if context_in(reply) is Some {
                StepView::Ask {
                    state: ToggleView::QueryingParent { command },
                    request: RequestView::Run(HostCommandView::QueryParent),
                }
            } else {
                StepView::Fail { error: ToggleError::NotInsideHost }
            }
        },
        ToggleView::QueryingParent { command } => {
            match reply {
                ReplyView::Completed { output, .. } => StepView::Ask {
                    state: ToggleView::ProbingAttachment {
                        names: derived(parent_name_in(output), command),
                        command,
                    },
                    request: RequestView::ReadContext,
                },
                _ => StepView::Fail { error: ToggleError::ParentQueryFailed },
            }
        },
        ToggleView::ProbingAttachment { names, command } => {
            if attached_to(context_in(reply), names) {
                StepView::Ask {
                    state: ToggleView::Detaching,
                    request: RequestView::Run(HostCommandView::Detach(names)),
                }
            } else {
                StepView::Ask {
                    state: ToggleView::ProbingExistence { names, command },
                    request: RequestView::Run(HostCommandView::HasSession(names)),
                }
            }
        },
        ToggleView::Detaching => {
            if ran(reply) {
                StepView::Exit { code: 0 }
            } else {
                StepView::Fail { error: ToggleError::DetachFailed }
            }
        },
        ToggleView::ProbingExistence { names, command } => {
            if succeeded(reply) {
                StepView::Ask {
                    state: ToggleView::Showing,
                    request: RequestView::Run(HostCommandView::Popup(names)),
                }
            } else {
                StepView::Ask {
                    state: ToggleView::Creating { names },
                    request: RequestView::Run(HostCommandView::NewSession(names, command)),
                }
            }
        },
        ToggleView::Creating { names } => {
            if ran(reply) {
                StepView::Ask {
                    state: ToggleView::DisablingStatus { names },
                    request: RequestView::Run(HostCommandView::StatusOff(names)),
                }
            } else {
                StepView::Fail { error: ToggleError::CreateFailed }
            }
        },
        ToggleView::DisablingStatus { names } => {
            if ran(reply) {
                StepView::Ask {
                    state: ToggleView::Showing,
                    request: RequestView::Run(HostCommandView::Popup(names)),
                }
            } else {
                StepView::Fail { error: ToggleError::StatusOffFailed }
            }
        },
        ToggleView::Showing => {
            match reply {
                ReplyView::Completed { code, .. } => StepView::Exit { code: exit_status_of(code) },
                _ => StepView::Fail { error: ToggleError::PopupFailed },
            }
        },
    }
}

impl Toggle {
    /// Begins a toggle of the popup for `command`; without a command, of the
    /// popup that runs a shell.
    pub fn start(command: Option<String>) -> (step: Step)
        ensures
            step@ == first_step(command.deep_view()),
    {
        Step::Ask { state: Toggle::CheckingContext { command }, request: Request::ReadContext }
    }

    /// Takes the reply to the request that led to this state, and says what
    /// to do next.
    pub fn step(self, reply: Reply) -> (step: Step)
        ensures
            step@ == step_after(self@, reply@),
    {
        match self {
            Toggle::CheckingContext { command } => {
                match reply {
                    Reply::Context(Some(_)) => Step::Ask {
                        state: Toggle::QueryingParent { command },
                        request: Request::Run(HostCommand::QueryParent),
                    },
                    _ => Step::Fail { error: ToggleError::NotInsideHost },
                }
            },
            Toggle::QueryingParent { command } => {
                match reply {
                    Reply::Completed { output, .. } => {
                        let parent = parent_name(output.as_slice());
                        let handle = match &command {
                            Some(text) => SessionHandle::derive(
                                parent.as_str(),
                                Some(text.as_str()),
                            ),
                            None => SessionHandle::derive(parent.as_str(), None),
                        };
                        Step::Ask {
                            state: Toggle::ProbingAttachment { handle, command },
                            request: Request::ReadContext,
                        }
                    },
                    _ => Step::Fail { error: ToggleError::ParentQueryFailed },
                }
            },
            Toggle::ProbingAttachment { handle, command } => {
                let attached = match &reply {
                    Reply::Context(Some(descriptor)) => handle.is_attached(
                        Some(descriptor.as_str()),
                    ),
                    _ => false,
                };
                if attached {
                    Step::Ask {
                        state: Toggle::Detaching,
                        request: Request::Run(HostCommand::Detach(handle)),
                    }
                } else {
                    let request = Request::Run(HostCommand::HasSession(handle.clone()));
                    Step::Ask { state: Toggle::ProbingExistence { handle, command }, request }
                }
            },
            Toggle::Detaching => {
                match reply {
                    Reply::Completed { .. } => Step::Exit { code: 0 },
                    _ => Step::Fail { error: ToggleError::DetachFailed },
                }
            },
            Toggle::ProbingExistence { handle, command } => {
                if session_exists(&reply) {
                    Step::Ask {
                        state: Toggle::Showing,
                        request: Request::Run(HostCommand::Popup(handle)),
                    }
                } else {
                    let request = Request::Run(HostCommand::NewSession(handle.clone(), command));
                    Step::Ask { state: Toggle::Creating { handle }, request }
                }
            },
            Toggle::Creating { handle } => {
                match reply {
                    Reply::Completed { .. } => {
                        let request = Request::Run(HostCommand::StatusOff(handle.clone()));
                        Step::Ask { state: Toggle::DisablingStatus { handle }, request }
                    },
                    _ => Step::Fail { error: ToggleError::CreateFailed },
                }
            },
            Toggle::DisablingStatus { handle } => {
                match reply {
                    Reply::Completed { .. } => Step::Ask {
                        state: Toggle::Showing,
                        request: Request::Run(HostCommand::Popup(handle)),
                    },
                    _ => Step::Fail { error: ToggleError::StatusOffFailed },
                }
            },
            Toggle::Showing => {
                match reply {
                    Reply::Completed { code: Some(value), .. } => Step::Exit { code: value },
                    Reply::Completed { code: None, .. } => Step::Exit { code: 1 },
                    _ => Step::Fail { error: ToggleError::PopupFailed },
                }
            },
        }
    }
}

/// The two probes never make a toggle fail. Whatever the reply to the
/// attachment probe or to the existence check, the toggle goes on with a
/// request. A context indicator that cannot be read counts as a client that
/// is not attached, and an existence check that could not be made counts as
/// a session that is not there: the toggle goes on to create it.
pub proof fn lemma_probes_are_tolerant(
    names: HandleNames,
    command: Option<Seq<char>>,
    reply: ReplyView,
)
    ensures
        step_after(ToggleView::ProbingAttachment { names, command }, reply) is Ask,
        step_after(ToggleView::ProbingExistence { names, command }, reply) is Ask,
        context_in(reply) is None ==> step_after(
            ToggleView::ProbingAttachment { names, command },
            reply,
        ) == (StepView::Ask {
            state: ToggleView::ProbingExistence { names, command },
            request: RequestView::Run(HostCommandView::HasSession(names)),
        }),
        !ran(reply) ==> step_after(ToggleView::ProbingExistence { names, command }, reply) == (
        StepView::Ask {
            state: ToggleView::Creating { names },
            request: RequestView::Run(HostCommandView::NewSession(names, command)),
        }),
{
}

/// A toggle fails only for want of an answer: at the start where the context
/// indicator is not set, and later where the host program could not be run.
/// What a host program that ran reports, success or not, never makes it
/// fail. The error names the request that went unanswered.
pub proof fn lemma_fails_only_unanswered(state: ToggleView, reply: ReplyView)
    requires
        step_after(state, reply) is Fail,
    ensures
        state is CheckingContext ==> context_in(reply) is None,
        !(state is CheckingContext) ==> !ran(reply),
        step_after(state, reply)->error == (match state {
            ToggleView::CheckingContext { .. } => ToggleError::NotInsideHost,
            ToggleView::QueryingParent { .. } => ToggleError::ParentQueryFailed,
            ToggleView::Detaching => ToggleError::DetachFailed,
            ToggleView::Creating { .. } => ToggleError::CreateFailed,
            ToggleView::DisablingStatus { .. } => ToggleError::StatusOffFailed,
            _ => ToggleError::PopupFailed,
        }),
        !(state is ProbingAttachment),
        !(state is ProbingExistence),
{
}

/// A toggle exits in two places only: after detaching, with status 0
/// whatever the host reported; and after the overlay has closed, with the
/// overlay's own exit code, or 1 where it has none.
pub proof fn lemma_exit_status(state: ToggleView, reply: ReplyView)
    requires
        step_after(state, reply) is Exit,
    ensures
        state is Detaching || state is Showing,
        state is Detaching ==> step_after(state, reply)->code == 0,
        state is Showing ==> reply is Completed && step_after(state, reply)->code
            == exit_status_of(reply->code),
{
}

} // verus!
