//! The interface between the interpreter and its host: the browser
//! operations the machine asks for ([`Action`]), the outcomes the host
//! reports back ([`Event`]), the failure taxonomy ([`RunError`]) and the
//! run log ([`LogLine`]).
//!
//! Elements are named by opaque handles (`u64`): the host assigns a handle
//! to each element a query finds and keeps the real element alongside it.

use vstd::prelude::*;
use crate::script::{Stmt, StmtView};

verus! {

/// One strategy of the locator-resolution algorithm.
#[derive(Debug, Clone, Copy, PartialEq, Eq, Structural)]
pub enum QueryKind {
    /// An input element whose placeholder equals the text.
    Placeholder,
    /// An input element that is a sibling of a label with that exact text.
    LabelledInput,
    /// An element whose text content equals the text.
    ExactText,
    /// An element whose text content contains the text.
    PartialText,
    /// An element whose title attribute equals the text.
    Title,
    /// An element with that identifier attribute.
    Identifier,
    /// An element with that name attribute.
    ElementName,
    /// An element with that class.
    ClassName,
    /// The text interpreted directly as a structural path query.
    XPath,
}

/// The strategy attempted at position `i` of each locator pass.
pub open spec fn strategy_kind(i: int) -> QueryKind {
    if i == 0 {
        QueryKind::Placeholder
    } else if i == 1 {
        QueryKind::LabelledInput
    } else if i == 2 {
        QueryKind::ExactText
    } else if i == 3 {
        QueryKind::PartialText
    } else if i == 4 {
        QueryKind::Title
    } else if i == 5 {
        QueryKind::Identifier
    } else if i == 6 {
        QueryKind::ElementName
    } else if i == 7 {
        QueryKind::ClassName
    } else {
        QueryKind::XPath
    }
}

/// How many strategies one locator pass tries.
pub open spec fn strategy_count() -> int {
    9
}

/// How many passes the locator makes.
pub open spec fn pass_count() -> int {
    3
}

/// The wait budget, in seconds, of a locator pass.
pub open spec fn pass_budget(pass: int) -> u64 {
    if pass == 0 {
        0
    } else if pass == 1 {
        5
    } else {
        10
    }
}

/// The poll budget of one query: only the first strategy of a pass polls,
/// up to the pass's budget; the rest are attempted without waiting.
pub open spec fn query_wait(pass: int, strategy: int) -> u64 {
    if strategy == 0 {
        pass_budget(pass)
    } else {
        0
    }
}

/// Locator precedence: the placeholder strategy opens every pass, and the
/// identifier strategy comes strictly later, so an element that matches
/// both ways is always resolved through its placeholder.
pub proof fn lemma_locator_precedence()
    ensures
        strategy_kind(0) == QueryKind::Placeholder,
        forall|i: int|
            0 <= i < strategy_count() && strategy_kind(i) == QueryKind::Identifier ==> 0 < i,
{
}

/// The exec mirror of [`strategy_kind`].
pub fn kind_for(strategy: u8) -> (k: QueryKind)
    ensures
        k == strategy_kind(strategy as int),
{
    if strategy == 0 {
        QueryKind::Placeholder
    } else if strategy == 1 {
        QueryKind::LabelledInput
    } else if strategy == 2 {
        QueryKind::ExactText
    } else if strategy == 3 {
        QueryKind::PartialText
    } else if strategy == 4 {
        QueryKind::Title
    } else if strategy == 5 {
        QueryKind::Identifier
    } else if strategy == 6 {
        QueryKind::ElementName
    } else if strategy == 7 {
        QueryKind::ClassName
    } else {
        QueryKind::XPath
    }
}

/// The exec mirror of [`pass_budget`].
pub fn budget_for(pass: u8) -> (w: u64)
    ensures
        w == pass_budget(pass as int),
{
    if pass == 0 {
        0
    } else if pass == 1 {
        5
    } else {
        10
    }
}

/// A browser operation the host must perform before the run can continue.
#[derive(Debug, PartialEq)]
pub enum Action {
    /// Sleep one second: the fixed pacing delay before every command.
    Pace,
    /// Sleep the given number of seconds.
    Sleep { secs: u64 },
    /// Search the page by one locator strategy, polling at one-second
    /// granularity for up to `wait_secs` seconds.
    Query { kind: QueryKind, text: String, wait_secs: u64 },
    /// Scroll the element into view.
    ScrollIntoView { elem: u64 },
    /// Outline the newly focused element and remove the outline of the
    /// previous one, if any (demo mode only; a failure to un-outline the
    /// previous element is ignored, it may simply have become stale).
    Highlight { elem: u64, previous: Option<u64> },
    /// Clear the element's current contents.
    ClearElem { elem: u64 },
    /// Send the text to the element as keystrokes.
    SendKeys { elem: u64, text: String },
    /// Send the Enter key to the element.
    PressEnter { elem: u64 },
    /// Move the pointer to the element's center and click.
    Click { elem: u64 },
    /// Read the element's visible text.
    GetText { elem: u64 },
    /// Read the element's tag name.
    GetTagName { elem: u64 },
    /// Find the element's parent (used to refocus from an option to its
    /// select control).
    QueryParent { elem: u64 },
    /// Wrap the element as a select control.
    WrapSelect { elem: u64 },
    /// Choose the option of the select control whose visible text equals
    /// `text` exactly.
    SelectByText { elem: u64, text: String },
    /// Drag-and-drop from the source element to the target element.
    DragAndDrop { source: u64, target: u64 },
    /// Capture the page as a raster image.
    TakeScreenshot,
    /// Go to the URL.
    Navigate { url: String },
    /// Reload the current page.
    Refresh,
    /// The run is over. The host closes the browser session if
    /// `close_session` is set; `exited_early` reports whether the run ended
    /// in an error state.
    Finished { exited_early: bool, close_session: bool },
}

/// The host's report on the action the machine last asked for.
#[derive(Debug, PartialEq)]
pub enum Event {
    /// A sleep elapsed (also the reply to any action that cannot fail).
    Tick,
    /// A query found an element; the host names it by a fresh handle.
    Found { elem: u64 },
    /// A query found nothing within its budget.
    NotFound,
    /// The operation succeeded.
    ActionOk,
    /// The operation failed.
    ActionFailed,
    /// The requested text (element text or tag name).
    Text { value: String },
    /// The captured raster image.
    Bytes { data: Vec<u8> },
}

/// Why a command failed. Severity is not part of the failure: it is
/// decided by the retry state at the moment the failure is handled.
#[derive(Debug, Clone, Copy, PartialEq, Eq, Structural)]
pub enum RunError {
    /// A parameter named a variable with no value in the environment.
    UndefinedVariable,
    /// Every locator strategy of every pass came up empty.
    CouldNotLocate,
    /// An element-scoped command ran with no element in focus.
    NoFocus,
    /// Scrolling the freshly located element into view failed.
    ScrollFailed,
    /// Outlining the located element failed (demo mode).
    HighlightFailed,
    /// Clearing the focused element failed.
    ClearFailed,
    /// Sending keystrokes to the focused element failed.
    TypeFailed,
    /// Clicking the focused element failed.
    ClickFailed,
    /// Reloading the page failed.
    RefreshFailed,
    /// Navigation to the URL failed.
    NavigateFailed,
    /// Capturing the screenshot failed.
    ScreenshotFailed,
    /// Reading the focused element's text failed.
    ReadTextFailed,
    /// Sending the file path to the focused element failed.
    UploadFailed,
    /// The drag-and-drop operation failed.
    DragFailed,
    /// Reading the focused element's tag name failed.
    TagNameFailed,
    /// The focused option's parent select control could not be found.
    ParentSelectFailed,
    /// The focused element is not a select control.
    NotSelectable,
    /// No option of the select control bears the requested text.
    OptionNotFound,
    /// The key to press is not in the supported set.
    UnsupportedKey,
    /// The wait duration did not parse as a non-negative integer.
    BadWaitValue,
    /// Sending the key to the focused element failed.
    PressFailed,
}

impl RunError {
    /// A human-readable description of the failure.
    pub fn message(&self) -> (r: &'static str)
        ensures
            *self == RunError::UndefinedVariable ==> r@ == "Variable is not yet defined"@,
            *self == RunError::CouldNotLocate ==> r@ == "Could not locate the element"@,
            *self == RunError::NoFocus ==> r@
                == "No element currently located. Try using the locate command"@,
            *self == RunError::ScrollFailed ==> r@ == "Error scrolling web element into view"@,
            *self == RunError::HighlightFailed ==> r@ == "Error highlighting element"@,
            *self == RunError::ClearFailed ==> r@ == "Error clearing element"@,
            *self == RunError::TypeFailed ==> r@ == "Error typing into element"@,
            *self == RunError::ClickFailed ==> r@ == "Error clicking element"@,
            *self == RunError::RefreshFailed ==> r@ == "Error refreshing page"@,
            *self == RunError::NavigateFailed ==> r@ == "Error navigating to page."@,
            *self == RunError::ScreenshotFailed ==> r@ == "Error taking screenshot."@,
            *self == RunError::ReadTextFailed ==> r@ == "Error getting text from element"@,
            *self == RunError::UploadFailed ==> r@ == "Error uploading file"@,
            *self == RunError::DragFailed ==> r@ == "Error dragging element."@,
            *self == RunError::TagNameFailed ==> r@ == "Error getting element tag name"@,
            *self == RunError::ParentSelectFailed ==> r@
                == "Error getting parent select. Try locating the select element directly"@,
            *self == RunError::NotSelectable ==> r@ == "Element is not a <select> element"@,
            *self == RunError::OptionNotFound ==> r@ == "Could not select option by text"@,
            *self == RunError::UnsupportedKey ==> r@ == "Unsupported Key"@,
            *self == RunError::BadWaitValue ==> r@
                == "Could not parse time to wait as integer."@,
            *self == RunError::PressFailed ==> r@
                == "Error pressing key. Make sure you have an element in focus first."@,
    {
        match self {
            RunError::UndefinedVariable => "Variable is not yet defined",
            RunError::CouldNotLocate => "Could not locate the element",
            RunError::NoFocus => "No element currently located. Try using the locate command",
            RunError::ScrollFailed => "Error scrolling web element into view",
            RunError::HighlightFailed => "Error highlighting element",
            RunError::ClearFailed => "Error clearing element",
            RunError::TypeFailed => "Error typing into element",
            RunError::ClickFailed => "Error clicking element",
            RunError::RefreshFailed => "Error refreshing page",
            RunError::NavigateFailed => "Error navigating to page.",
            RunError::ScreenshotFailed => "Error taking screenshot.",
            RunError::ReadTextFailed => "Error getting text from element",
            RunError::UploadFailed => "Error uploading file",
            RunError::DragFailed => "Error dragging element.",
            RunError::TagNameFailed => "Error getting element tag name",
            RunError::ParentSelectFailed => "Error getting parent select. Try locating the select element directly",
            RunError::NotSelectable => "Element is not a <select> element",
            RunError::OptionNotFound => "Could not select option by text",
            RunError::UnsupportedKey => "Unsupported Key",
            RunError::BadWaitValue => "Could not parse time to wait as integer.",
            RunError::PressFailed => "Error pressing key. Make sure you have an element in focus first.",
        }
    }
}

/// One line of the run log.
#[derive(Debug, PartialEq)]
pub enum LogLine {
    /// A statement was dequeued while not in error-sync mode.
    Statement(Stmt),
    /// A screenshot was requested.
    ScreenshotNote,
    /// A command failed.
    Failure(RunError),
}

/// Mathematical model of a [`LogLine`].
pub enum LogView {
    Statement(StmtView),
    ScreenshotNote,
    Failure(RunError),
}

impl View for LogLine {
    type V = LogView;

    open spec fn view(&self) -> LogView {
        match self {
            LogLine::Statement(s) => LogView::Statement(s@),
            LogLine::ScreenshotNote => LogView::ScreenshotNote,
            LogLine::Failure(e) => LogView::Failure(*e),
        }
    }
}

impl DeepView for LogLine {
    type V = LogView;

    open spec fn deep_view(&self) -> LogView {
        self.view()
    }
}

} // verus!
