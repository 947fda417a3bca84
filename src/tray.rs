use vstd::prelude::*;
use crate::backend::{
    build_request, configured_view, host_or_default, url_for, IngestPayload, Method, Request,
    RequestView,
};
use crate::error::{outcome_view, ErrorView, ShellError};
use crate::text::same_text;

verus! {

/// Path of the backend's ingest operation.
pub const INGEST_PATH: &'static str = "/ingest";

/// Name of the UI event sent once an ingest was triggered.
pub const INGEST_EVENT: &'static str = "ingest-finished";

/// Message carried by that event.
pub const INGEST_MESSAGE: &'static str = "Ingest triggered";

/// The three entries of the tray menu.
#[derive(Debug, Clone, Copy, PartialEq, Eq, Structural)]
pub enum MenuAction {
    Open,
    Ingest,
    Quit,
}

/// The stable id of an entry.
pub open spec fn action_id(a: MenuAction) -> Seq<char> {
    match a {
        MenuAction::Open => "open"@,
        MenuAction::Ingest => "ingest"@,
        MenuAction::Quit => "quit"@,
    }
}

/// The label an entry shows.
pub open spec fn action_label(a: MenuAction) -> Seq<char> {
    match a {
        MenuAction::Open => "Open UI"@,
        MenuAction::Ingest => "Ingest Now"@,
        MenuAction::Quit => "Quit"@,
    }
}

/// The entry whose id is `id`, if any.
pub open spec fn action_for(id: Seq<char>) -> Option<MenuAction> {
    if id == "open"@ {
        Some(MenuAction::Open)
    } else if id == "ingest"@ {
        Some(MenuAction::Ingest)
    } else if id == "quit"@ {
        Some(MenuAction::Quit)
    } else {
        None
    }
}

/// The entries in menu order.
pub open spec fn menu_order() -> Seq<MenuAction> {
    seq![MenuAction::Open, MenuAction::Ingest, MenuAction::Quit]
}

impl MenuAction {
    /// The stable id of this entry.
    pub fn id(&self) -> (r: &'static str)
        ensures
            r@ == action_id(*self),
    {
        match self {
            MenuAction::Open => "open",
            MenuAction::Ingest => "ingest",
            MenuAction::Quit => "quit",
        }
    }

    /// The label this entry shows in the menu.
    pub fn label(&self) -> (r: &'static str)
        ensures
            r@ == action_label(*self),
    {
        match self {
            MenuAction::Open => "Open UI",
            MenuAction::Ingest => "Ingest Now",
            MenuAction::Quit => "Quit",
        }
    }

    /// The entry with id `id`; `None` for any other id.
    pub fn from_id(id: &str) -> (r: Option<MenuAction>)
        ensures
            r == action_for(id@),
    {
        if same_text(id, "open") {
            Some(MenuAction::Open)
        } else if same_text(id, "ingest") {
            Some(MenuAction::Ingest)
        } else if same_text(id, "quit") {
            Some(MenuAction::Quit)
        } else {
            None
        }
    }
}

/// The menu's entries, in the order they are shown.
pub fn menu_actions() -> (r: Vec<MenuAction>)
    ensures
        r@ == menu_order(),
{
    let r = vec![MenuAction::Open, MenuAction::Ingest, MenuAction::Quit];
    assert(r@ =~= menu_order());
    r
}

/// A one-way event to the UI: its name and the message it carries.
#[derive(Debug, Clone)]
pub struct Notification {
    pub event: String,
    pub message: String,
}

/// A [`Notification`] seen as character sequences.
pub struct NotificationView {
    pub event: Seq<char>,
    pub message: Seq<char>,
}

impl View for Notification {
    type V = NotificationView;

    open spec fn view(&self) -> NotificationView {
        NotificationView { event: self.event@, message: self.message@ }
    }
}

/// The event that announces a triggered ingest.
pub open spec fn ingest_note() -> NotificationView {
    NotificationView { event: INGEST_EVENT@, message: INGEST_MESSAGE@ }
}

/// The request that an ingest sends: POST of `{"all": true}` to the ingest path.
pub open spec fn ingest_request(configured: Option<Seq<char>>) -> RequestView {
    RequestView {
        url: url_for(host_or_default(configured), INGEST_PATH@),
        method: Method::Post,
        body: Some(IngestPayload { all: true }),
    }
}

/// What a menu click asks of the host.
#[derive(Debug)]
pub enum Dispatch {
    /// Bring the main window forward.
    OpenWindow,
    /// Perform this backend call; an ingest follows.
    Ingest(Request),
    /// End the process with this code.
    Exit(i32),
    /// Do nothing.
    Ignore,
}

/// A [`Dispatch`] with its request seen through its view.
pub enum DispatchView {
    OpenWindow,
    Ingest(RequestView),
    Exit(int),
    Ignore,
}

impl View for Dispatch {
    type V = DispatchView;

    open spec fn view(&self) -> DispatchView {
        match self {
            Dispatch::OpenWindow => DispatchView::OpenWindow,
            Dispatch::Ingest(req) => DispatchView::Ingest(req@),
            Dispatch::Exit(code) => DispatchView::Exit(*code as int),
            Dispatch::Ignore => DispatchView::Ignore,
        }
    }
}

/// What a click on the entry with id `id` does, given the configured host.
pub open spec fn dispatched(id: Seq<char>, configured: Option<Seq<char>>) -> DispatchView {
    match action_for(id) {
        Some(MenuAction::Open) => DispatchView::OpenWindow,
        Some(MenuAction::Ingest) => DispatchView::Ingest(ingest_request(configured)),
        Some(MenuAction::Quit) => DispatchView::Exit(0),
        None => DispatchView::Ignore,
    }
}

/// The backend call that triggers an ingest on the configured host.
pub fn ingest_call(configured: Option<&str>) -> (r: Request)
    ensures
        r@ == ingest_request(configured_view(configured)),
{
    build_request(configured, INGEST_PATH, Method::Post, Some(IngestPayload { all: true }))
}

/// Decides what a click on the menu entry with id `id` does.
pub fn dispatch(id: &str, configured: Option<&str>) -> (r: Dispatch)
    ensures
        r@ == dispatched(id@, configured_view(configured)),
{
    match MenuAction::from_id(id) {
        Some(MenuAction::Open) => Dispatch::OpenWindow,
        Some(MenuAction::Ingest) => Dispatch::Ingest(ingest_call(configured)),
        Some(MenuAction::Quit) => Dispatch::Exit(0),
        None => Dispatch::Ignore,
    }
}

/// What follows a performed ingest call.
#[derive(Debug)]
pub enum FollowUp {
    /// Send this event to the UI.
    Notify(Notification),
    /// Report this failure; nothing is sent to the UI.
    Report(ShellError),
}

/// A [`FollowUp`] seen through the views of what it holds.
pub enum FollowUpView {
    Notify(NotificationView),
    Report(ErrorView),
}

impl View for FollowUp {
    type V = FollowUpView;

    open spec fn view(&self) -> FollowUpView {
        match self {
            FollowUp::Notify(n) => FollowUpView::Notify(n@),
            FollowUp::Report(e) => FollowUpView::Report(e@),
        }
    }
}

/// The follow-up of an ingest call with outcome `outcome`.
pub open spec fn follow_up(outcome: Result<(), ErrorView>) -> FollowUpView {
    match outcome {
        Ok(()) => FollowUpView::Notify(ingest_note()),
        Err(e) => FollowUpView::Report(e),
    }
}

/// The events a follow-up sends to the UI, in order.
pub open spec fn notifications_of(f: FollowUpView) -> Seq<NotificationView> {
    match f {
        FollowUpView::Notify(n) => seq![n],
        FollowUpView::Report(_) => Seq::empty(),
    }
}

/// The event that announces a triggered ingest.
pub fn ingest_notification() -> (r: Notification)
    ensures
        r@ == ingest_note(),
{
    Notification { event: INGEST_EVENT.to_owned(), message: INGEST_MESSAGE.to_owned() }
}

/// Decides what follows an ingest call: notify the UI on success, report otherwise.
pub fn after_ingest(outcome: Result<(), ShellError>) -> (r: FollowUp)
    ensures
        r@ == follow_up(outcome_view(outcome)),
{
    match outcome {
        Ok(()) => FollowUp::Notify(ingest_notification()),
        Err(e) => FollowUp::Report(e),
    }
}

/// What delivering a UI event amounts to: success, or a delivery failure with its reason.
pub fn notification_outcome(reply: Result<(), String>) -> (r: Result<(), ShellError>)
    ensures
        reply is Ok ==> r is Ok,
        reply matches Err(reason) ==> (r matches Err(e) && e@ == ErrorView::NotificationDeliveryFailed(
            reason@,
        )),
{
    match reply {
        Ok(()) => Ok(()),
        Err(reason) => Err(ShellError::NotificationDeliveryFailed(reason)),
    }
}

/// The ingest entry always sends a POST whose body is `{"all": true}`, and
/// its URL is the host (or the default), without trailing slashes, then `/ingest`.
pub proof fn lemma_ingest_sends_post_all(configured: Option<Seq<char>>)
    ensures
        dispatched("ingest"@, configured) == DispatchView::Ingest(ingest_request(configured)),
        ingest_request(configured).method == Method::Post,
        ingest_request(configured).body == Some(IngestPayload { all: true }),
        ingest_request(configured).url == crate::backend::trim_trailing_slashes(
            host_or_default(configured),
        ) + "/ingest"@,
{
    reveal_strlit("ingest");
    reveal_strlit("open");
    reveal_strlit("/ingest");
    assert("ingest"@.len() != "open"@.len());
}

/// A successful ingest call sends exactly one event to the UI, with message
/// "Ingest triggered"; a failed one sends none.
pub proof fn lemma_notified_once_on_success(outcome: Result<(), ErrorView>)
    ensures
        outcome is Ok ==> notifications_of(follow_up(outcome)).len() == 1
            && notifications_of(follow_up(outcome))[0].message == "Ingest triggered"@
            && notifications_of(follow_up(outcome))[0].event == "ingest-finished"@,
        outcome is Err ==> notifications_of(follow_up(outcome)).len() == 0,
{
    reveal_strlit("Ingest triggered");
    reveal_strlit("ingest-finished");
}

/// A click on an id other than "open", "ingest" and "quit" does nothing:
/// no window change, no backend call, no exit.
pub proof fn lemma_unknown_id_ignored(id: Seq<char>, configured: Option<Seq<char>>)
    requires
        id != "open"@,
        id != "ingest"@,
        id != "quit"@,
    ensures
        dispatched(id, configured) == DispatchView::Ignore,
{
}

} // verus!
