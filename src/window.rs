use vstd::prelude::*;
use crate::error::{ErrorView, ShellError, outcome_view};

verus! {

/// Logical name of the one application window.
pub const MAIN_WINDOW: &'static str = "main";

/// What the host reports back while the main window is being brought forward.
#[derive(Debug)]
pub enum WindowEvent {
    /// Nothing has been asked yet.
    Begin,
    /// The lookup of the main window; `true` when it exists.
    LookedUp(bool),
    /// The outcome of making the window visible.
    Shown(Result<(), String>),
    /// The outcome of giving the window input focus.
    Focused(Result<(), String>),
}

/// What the host is asked to do next.
#[derive(Debug)]
pub enum WindowCommand {
    /// Look up the window named [`MAIN_WINDOW`].
    Lookup,
    /// Make the window visible.
    Show,
    /// Give the window input focus.
    Focus,
    /// Stop, with this outcome.
    Finish(Result<(), ShellError>),
}

/// A [`WindowEvent`] with its texts seen as character sequences.
pub enum WindowReport {
    Begin,
    LookedUp(bool),
    Shown(Result<(), Seq<char>>),
    Focused(Result<(), Seq<char>>),
}

/// A [`WindowCommand`] with its error seen through [`ErrorView`].
pub enum WindowStep {
    Lookup,
    Show,
    Focus,
    Finish(Result<(), ErrorView>),
}

/// A host operation's outcome, its error text seen as a sequence.
pub open spec fn reply_view(r: Result<(), String>) -> Result<(), Seq<char>> {
    match r {
        Ok(()) => Ok(()),
        Err(e) => Err(e@),
    }
}

impl View for WindowEvent {
    type V = WindowReport;

    open spec fn view(&self) -> WindowReport {
        match self {
            WindowEvent::Begin => WindowReport::Begin,
            WindowEvent::LookedUp(found) => WindowReport::LookedUp(*found),
            WindowEvent::Shown(r) => WindowReport::Shown(reply_view(*r)),
            WindowEvent::Focused(r) => WindowReport::Focused(reply_view(*r)),
        }
    }
}

impl View for WindowCommand {
    type V = WindowStep;

    open spec fn view(&self) -> WindowStep {
        match self {
            WindowCommand::Lookup => WindowStep::Lookup,
            WindowCommand::Show => WindowStep::Show,
            WindowCommand::Focus => WindowStep::Focus,
            WindowCommand::Finish(r) => WindowStep::Finish(outcome_view(*r)),
        }
    }
}

/// The reason reported when no main window exists.
pub open spec fn unavailable_reason() -> Seq<char> {
    "Main window not available"@
}

/// The failure that ends the attempt, for a reason.
pub open spec fn fail_with(reason: Seq<char>) -> WindowStep {
    WindowStep::Finish(Err(ErrorView::WindowUnavailable(reason)))
}

/// The step that follows a report: look up, show, focus, stopping at the first failure.
pub open spec fn next_step(report: WindowReport) -> WindowStep {
    match report {
        WindowReport::Begin => WindowStep::Lookup,
        WindowReport::LookedUp(found) => if found {
            WindowStep::Show
        } else {
            fail_with(unavailable_reason())
        },
        WindowReport::Shown(r) => match r {
            Ok(()) => WindowStep::Focus,
            Err(e) => fail_with(e),
        },
        WindowReport::Focused(r) => match r {
            Ok(()) => WindowStep::Finish(Ok(())),
            Err(e) => fail_with(e),
        },
    }
}

/// Decides the next step of bringing the main window forward: look it up,
/// show it, then focus it, and stop at the first failure.
pub fn next_window_command(event: &WindowEvent) -> (r: WindowCommand)
    ensures
        r@ == next_step(event@),
{
    match event {
        WindowEvent::Begin => WindowCommand::Lookup,
        WindowEvent::LookedUp(found) => {
            if *found {
                WindowCommand::Show
            } else {
                let reason = "Main window not available".to_owned();
                proof {
                    assert(reason@ == unavailable_reason());
                }
                WindowCommand::Finish(Err(ShellError::WindowUnavailable(reason)))
            }
        },
        WindowEvent::Shown(res) => match res {
            Ok(()) => WindowCommand::Focus,
            Err(e) => WindowCommand::Finish(Err(ShellError::WindowUnavailable(e.clone()))),
        },
        WindowEvent::Focused(res) => match res {
            Ok(()) => WindowCommand::Finish(Ok(())),
            Err(e) => WindowCommand::Finish(Err(ShellError::WindowUnavailable(e.clone()))),
        },
    }
}

/// How a host answers: whether it has the main window, and how showing and
/// focusing it turn out.
pub struct WindowHost {
    pub has_main: bool,
    pub show: Result<(), Seq<char>>,
    pub focus: Result<(), Seq<char>>,
}

/// The host's report on a step; `None` once the attempt has finished.
pub open spec fn host_reply(host: WindowHost, step: WindowStep) -> Option<WindowReport> {
    match step {
        WindowStep::Lookup => Some(WindowReport::LookedUp(host.has_main)),
        WindowStep::Show => Some(WindowReport::Shown(host.show)),
        WindowStep::Focus => Some(WindowReport::Focused(host.focus)),
        WindowStep::Finish(_) => None,
    }
}

/// The steps taken from `report` on, against `host`, for at most `fuel` further replies.
pub open spec fn window_run(host: WindowHost, report: WindowReport, fuel: nat) -> Seq<WindowStep>
    decreases fuel,
{
    let step = next_step(report);
    if fuel == 0 {
        seq![step]
    } else {
        match host_reply(host, step) {
            Some(next) => seq![step] + window_run(host, next, (fuel - 1) as nat),
            None => seq![step],
        }
    }
}

/// The whole attempt to bring the main window forward on `host`.
pub open spec fn open_main(host: WindowHost) -> Seq<WindowStep> {
    window_run(host, WindowReport::Begin, 3)
}

/// Without a window named main, the attempt fails as unavailable after the
/// lookup, and the window is never shown nor focused.
pub proof fn lemma_open_without_main(host: WindowHost)
    requires
        !host.has_main,
    ensures
        open_main(host) == seq![WindowStep::Lookup, fail_with(unavailable_reason())],
        forall|i: int|
            0 <= i < open_main(host).len() ==> !(#[trigger] open_main(host)[i] is Show)
                && !(open_main(host)[i] is Focus),
{
    reveal_with_fuel(window_run, 3);
    assert(open_main(host) =~= seq![WindowStep::Lookup, fail_with(unavailable_reason())]);
}

/// With a window named main, it is shown before it is focused, focus is only
/// asked once showing succeeded, and when both succeed the attempt succeeds.
pub proof fn lemma_open_with_main(host: WindowHost)
    requires
        host.has_main,
    ensures
        open_main(host)[0] is Lookup,
        open_main(host)[1] is Show,
        host.show matches Err(e) ==> open_main(host) == seq![
            WindowStep::Lookup,
            WindowStep::Show,
            fail_with(e),
        ],
        host.show is Ok ==> open_main(host)[2] is Focus,
        host.show is Ok && host.focus is Ok ==> open_main(host) == seq![
            WindowStep::Lookup,
            WindowStep::Show,
            WindowStep::Focus,
            WindowStep::Finish(Ok(())),
        ],
        host.show is Ok ==> (host.focus matches Err(e) ==> open_main(host) == seq![
            WindowStep::Lookup,
            WindowStep::Show,
            WindowStep::Focus,
            fail_with(e),
        ]),
{
    reveal_with_fuel(window_run, 4);
    match host.show {
        Ok(()) => match host.focus {
            Ok(()) => {
                assert(open_main(host) =~= seq![
                    WindowStep::Lookup,
                    WindowStep::Show,
                    WindowStep::Focus,
                    WindowStep::Finish(Ok(())),
                ]);
            },
            Err(e) => {
                assert(open_main(host) =~= seq![
                    WindowStep::Lookup,
                    WindowStep::Show,
                    WindowStep::Focus,
                    fail_with(e),
                ]);
            },
        },
        Err(e) => {
            assert(open_main(host) =~= seq![WindowStep::Lookup, WindowStep::Show, fail_with(e)]);
        },
    }
}

} // verus!
