//! A model of the host, to say what a toggle comes to from its first request
//! to its end: which requests it makes, in which order, and how it leaves
//! the host.
//!
//! The model knows which popup sessions exist, which of them have their
//! status line off, and which popup is showing in an overlay. It answers at
//! once; on a real host the answer to showing an overlay comes when the
//! overlay closes.

use crate::host::{HostCommandView, ReplyView, RequestView};
use crate::naming::{attached_to, derived, parent_name_in, HandleNames};
use crate::toggle::{first_step, step_after, StepView, ToggleError, ToggleView};
use vstd::prelude::*;

verus! {

/// A host as far as a toggle can tell.
pub ghost struct Host {
    /// What the host prints when asked for the parent session's name.
    pub parent_output: Seq<u8>,
    /// The popup sessions that exist.
    pub sessions: Set<HandleNames>,
    /// The popup sessions whose status line is off.
    pub quiet: Set<HandleNames>,
    /// The popup that is showing in an overlay, if one is.
    pub overlay: Option<HandleNames>,
}

/// The reply of a host program that ran and reported success.
pub open spec fn done() -> ReplyView {
    ReplyView::Completed { success: true, code: Some(0i32), output: Seq::empty() }
}

/// The reply of a host program that ran and reported failure.
pub open spec fn refused() -> ReplyView {
    ReplyView::Completed { success: false, code: Some(1i32), output: Seq::empty() }
}

/// How the host answers `request` from a client whose context indicator
/// reads `context`, and what the host is like afterwards.
pub open spec fn serve(host: Host, context: Option<Seq<char>>, request: RequestView) -> (
    Host,
    ReplyView,
) {
    match request {
        RequestView::ReadContext => (host, ReplyView::Context(context)),
        RequestView::Run(HostCommandView::QueryParent) => (
            host,
            ReplyView::Completed { success: true, code: Some(0i32), output: host.parent_output },
        ),
        RequestView::Run(HostCommandView::Detach(names)) => {
            match host.overlay {
                Some(shown) if shown.socket_name == names.socket_name => (
                    Host { overlay: None, ..host },
                    done(),
                ),
                _ => (host, refused()),
            }
        },
        RequestView::Run(HostCommandView::HasSession(names)) => {
            if host.sessions.contains(names) {
                (host, done())
            } else {
                (host, refused())
            }
        },
        RequestView::Run(HostCommandView::NewSession(names, _)) => {
            if host.sessions.contains(names) {
                (host, refused())
            } else {
                (Host { sessions: host.sessions.insert(names), ..host }, done())
            }
        },
        RequestView::Run(HostCommandView::StatusOff(names)) => {
            if host.sessions.contains(names) {
                (Host { quiet: host.quiet.insert(names), ..host }, done())
            } else {
                (host, refused())
            }
        },
        RequestView::Run(HostCommandView::Popup(names)) => {
            if host.sessions.contains(names) {
                (Host { overlay: Some(names), ..host }, done())
            } else {
                (host, refused())
            }
        },
    }
}

/// How many requests a toggle in `state` can still make at most, the one it
/// is waiting on included.
pub open spec fn requests_left(state: ToggleView) -> nat {
    match state {
        ToggleView::CheckingContext { .. } => 7,
        ToggleView::QueryingParent { .. } => 6,
        ToggleView::ProbingAttachment { .. } => 5,
        ToggleView::ProbingExistence { .. } => 4,
        ToggleView::Creating { .. } => 3,
        ToggleView::DisablingStatus { .. } => 2,
        ToggleView::Detaching => 1,
        ToggleView::Showing => 1,
    }
}

/// How many requests can still follow `step` at most, its own included.
pub open spec fn steps_left(step: StepView) -> nat {
    match step {
        StepView::Ask { state, .. } => requests_left(state),
        _ => 0,
    }
}

/// A toggle played against a host: the host it leaves, the requests it made,
/// and the step it ended with.
pub ghost struct Run {
    pub host: Host,
    pub asked: Seq<RequestView>,
    pub end: StepView,
}

/// Plays a toggle from `step` on against `host`, for a client whose context
/// indicator reads `context`, until the toggle exits or fails.
pub open spec fn run(host: Host, context: Option<Seq<char>>, step: StepView) -> Run
    decreases steps_left(step),
{
    match step {
        StepView::Ask { state, request } => {
            let served = serve(host, context, request);
            let rest = run(served.0, context, step_after(state, served.1));
            Run { host: rest.host, asked: seq![request] + rest.asked, end: rest.end }
        },
        _ => Run { host, asked: Seq::empty(), end: step },
    }
}

/// Every reply brings a toggle nearer to its end: it makes seven requests at
/// most, and none of them twice in a row.
pub proof fn lemma_step_makes_progress(state: ToggleView, reply: ReplyView)
    ensures
        steps_left(step_after(state, reply)) < requests_left(state),
        requests_left(state) <= 7,
{
}

/// The requests of a toggle that finds its popup missing: it creates the
/// session with the command, switches the status line off and shows the
/// overlay, each once and in this order.
pub open spec fn requests_to_create(names: HandleNames, command: Option<Seq<char>>) -> Seq<
    RequestView,
> {
    seq![
        RequestView::ReadContext,
        RequestView::Run(HostCommandView::QueryParent),
        RequestView::ReadContext,
        RequestView::Run(HostCommandView::HasSession(names)),
        RequestView::Run(HostCommandView::NewSession(names, command)),
        RequestView::Run(HostCommandView::StatusOff(names)),
        RequestView::Run(HostCommandView::Popup(names)),
    ]
}

/// The requests of a toggle that finds its popup hidden: it shows the
/// overlay and creates nothing.
pub open spec fn requests_to_show(names: HandleNames) -> Seq<RequestView> {
    seq![
        RequestView::ReadContext,
        RequestView::Run(HostCommandView::QueryParent),
        RequestView::ReadContext,
        RequestView::Run(HostCommandView::HasSession(names)),
        RequestView::Run(HostCommandView::Popup(names)),
    ]
}

/// The requests of a toggle that finds its client attached to the popup: it
/// detaches the client, and neither looks for the session nor creates or
/// shows one.
pub open spec fn requests_to_hide(names: HandleNames) -> Seq<RequestView> {
    seq![
        RequestView::ReadContext,
        RequestView::Run(HostCommandView::QueryParent),
        RequestView::ReadContext,
        RequestView::Run(HostCommandView::Detach(names)),
    ]
}

/// Outside a host a toggle fails before it asks the host for anything.
pub proof fn lemma_outside_host_nothing_is_run(host: Host, command: Option<Seq<char>>)
    ensures
        run(host, None, first_step(command)) == (Run {
            host,
            asked: seq![RequestView::ReadContext],
            end: StepView::Fail { error: ToggleError::NotInsideHost },
        }),
{
    reveal_with_fuel(run, 3);
    let played = run(host, None, first_step(command));
    assert(played.asked =~= seq![RequestView::ReadContext]);
}

/// Toggling shows the popup, and toggling again hides it.
///
/// On a host where the popup's session does not exist, a toggle from a
/// client that is not attached to the popup creates the session and shows
/// it: afterwards the session exists, with its status line off, and is
/// showing in the overlay. A second toggle, from a client that is attached,
/// only detaches that client and exits with status 0: it creates nothing and
/// the session stays. A third toggle, from the first client again, shows the
/// session without creating it anew.
pub proof fn lemma_toggle_shows_then_hides(
    host: Host,
    outside: Seq<char>,
    inside: Seq<char>,
    command: Option<Seq<char>>,
)
    requires
        !host.sessions.contains(derived(parent_name_in(host.parent_output), command)),
        !attached_to(Some(outside), derived(parent_name_in(host.parent_output), command)),
        attached_to(Some(inside), derived(parent_name_in(host.parent_output), command)),
    ensures
        ({
            let names = derived(parent_name_in(host.parent_output), command);
            let shown = run(host, Some(outside), first_step(command));
            let hidden = run(shown.host, Some(inside), first_step(command));
            let again = run(hidden.host, Some(outside), first_step(command));
            &&& shown.asked == requests_to_create(names, command)
            &&& shown.end == StepView::Exit { code: 0 }
            &&& shown.host.sessions == host.sessions.insert(names)
            &&& shown.host.quiet.contains(names)
            &&& shown.host.overlay == Some(names)
            &&& hidden.asked == requests_to_hide(names)
            &&& hidden.end == StepView::Exit { code: 0 }
            &&& hidden.host.sessions == shown.host.sessions
            &&& hidden.host.overlay is None
            &&& again.asked == requests_to_show(names)
            &&& again.end == StepView::Exit { code: 0 }
            &&& again.host.sessions == shown.host.sessions
            &&& again.host.overlay == Some(names)
        }),
{
    reveal_with_fuel(run, 9);
    let names = derived(parent_name_in(host.parent_output), command);
    let shown = run(host, Some(outside), first_step(command));
    assert(shown.asked =~= requests_to_create(names, command));
    let hidden = run(shown.host, Some(inside), first_step(command));
    assert(hidden.asked =~= requests_to_hide(names));
    let again = run(hidden.host, Some(outside), first_step(command));
    assert(again.asked =~= requests_to_show(names));
}

} // verus!
