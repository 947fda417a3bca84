use vstd::prelude::*;
use vstd::string::*;

verus! {

/// Every failure the shell can meet while dispatching a menu entry or starting up.
#[derive(Debug, Clone, PartialEq, Eq)]
pub enum ShellError {
    /// The main window could not be found, shown or focused; holds the reason.
    WindowUnavailable(String),
    /// A backend request failed: the URL and the underlying cause.
    NetworkRequestFailed { url: String, cause: String },
    /// The UI event could not be delivered; holds the reason.
    NotificationDeliveryFailed(String),
    /// A request method other than GET or POST was asked for; holds the method.
    UnsupportedMethod(String),
    /// The tray icon or menu could not be registered; holds the reason.
    TrayInitializationFailed(String),
}

/// A [`ShellError`] with its texts seen as character sequences.
pub enum ErrorView {
    WindowUnavailable(Seq<char>),
    NetworkRequestFailed { url: Seq<char>, cause: Seq<char> },
    NotificationDeliveryFailed(Seq<char>),
    UnsupportedMethod(Seq<char>),
    TrayInitializationFailed(Seq<char>),
}

impl View for ShellError {
    type V = ErrorView;

    open spec fn view(&self) -> ErrorView {
        match self {
            ShellError::WindowUnavailable(s) => ErrorView::WindowUnavailable(s@),
            ShellError::NetworkRequestFailed { url, cause } => ErrorView::NetworkRequestFailed {
                url: url@,
                cause: cause@,
            },
            ShellError::NotificationDeliveryFailed(s) => ErrorView::NotificationDeliveryFailed(s@),
            ShellError::UnsupportedMethod(s) => ErrorView::UnsupportedMethod(s@),
            ShellError::TrayInitializationFailed(s) => ErrorView::TrayInitializationFailed(s@),
        }
    }
}

/// The outcome of an operation, with its error seen through [`ErrorView`].
pub open spec fn outcome_view(r: Result<(), ShellError>) -> Result<(), ErrorView> {
    match r {
        Ok(()) => Ok(()),
        Err(e) => Err(e@),
    }
}

/// The text that is logged for an error.
pub open spec fn error_text(e: ErrorView) -> Seq<char> {
    match e {
        ErrorView::WindowUnavailable(reason) => reason,
        ErrorView::NetworkRequestFailed { url, cause } => "Request to "@ + url + " failed: "@
            + cause,
        ErrorView::NotificationDeliveryFailed(reason) => reason,
        ErrorView::UnsupportedMethod(name) => "Unsupported method "@ + name,
        ErrorView::TrayInitializationFailed(reason) => reason,
    }
}

impl ShellError {
    /// The text that is logged for this error.
    pub fn message(&self) -> (r: String)
        ensures
            r@ == error_text(self@),
    {
        match self {
            ShellError::WindowUnavailable(reason) => reason.clone(),
            ShellError::NetworkRequestFailed { url, cause } => {
                let mut text = "Request to ".to_owned();
                text.append(url.as_str());
                text.append(" failed: ");
                text.append(cause.as_str());
                text
            },
            ShellError::NotificationDeliveryFailed(reason) => reason.clone(),
            ShellError::UnsupportedMethod(name) => {
                let mut text = "Unsupported method ".to_owned();
                text.append(name.as_str());
                text
            },
            ShellError::TrayInitializationFailed(reason) => reason.clone(),
        }
    }
}

} // verus!
