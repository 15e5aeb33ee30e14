//! The statement interpreter: a resumable state machine.
//!
//! The machine owns the pending-statement queue, the variable environment,
//! the focused-element slot, the error-sync and retry flags, and the log
//! and screenshot buffers. It never performs I/O: whenever a browser
//! operation is needed it returns an [`Action`] and suspends; the host
//! performs the operation and resumes the machine with an [`Event`]
//! through [`Interpreter::step`].
//!
//! Error protocol: every failure is [`Severity::Recoverable`] unless a
//! retry pass is active, in which case it is always escalated to
//! [`Severity::Exit`]. A recoverable failure puts the machine in
//! error-sync mode, where statements are skipped (but recorded for
//! replay) until a catch-error boundary is reached; an exit failure ends
//! the run at once.

use vstd::prelude::*;
use crate::effects::{
    budget_for, kind_for, pass_count, query_wait, strategy_count, strategy_kind, Action, Event,
    LogLine, LogView, QueryKind, RunError,
};
use crate::environment::{lookup, Environment};
use crate::script::{Cmd, CmdParam, CmdStmt, CmdView, IfStmt, ParamView, SetVariableStmt, Stmt, StmtView};
use crate::text::{parse_seconds, parse_seconds_spec, str_eq};

verus! {

/// How the run reacts to a failure: a `Recoverable` failure moves the
/// machine to error-sync mode, looking for the next catch-error boundary;
/// an `Exit` failure ends the run immediately.
#[derive(Debug, Clone, Copy, PartialEq, Eq, Structural)]
pub enum Severity {
    Exit,
    Recoverable,
}

/// The single severity rule: a failure is `Exit` exactly when a retry
/// pass is active, which bounds every catch-error boundary to at most one
/// retry attempt.
pub open spec fn severity_for(tried_again: bool) -> Severity {
    if tried_again {
        Severity::Exit
    } else {
        Severity::Recoverable
    }
}

/// The retry bound in one line: with a retry pass active every failure
/// is fatal, and outside one every failure is recoverable, so no script
/// can retry more than once per catch-error boundary.
pub proof fn lemma_retry_severity()
    ensures
        severity_for(true) == Severity::Exit,
        severity_for(false) == Severity::Recoverable,
{
}

/// What the machine does with a freshly focused element.
#[derive(Debug, PartialEq)]
pub enum LocateGoal {
    /// Setting focus was the whole command.
    FocusOnly,
    /// Drag the remembered source element onto the new focus.
    DragSource { source: u64 },
    /// Continue a select command against the new focus.
    SelectOption { option: String },
}

/// Mathematical model of a [`LocateGoal`].
pub enum GoalView {
    FocusOnly,
    DragSource(u64),
    SelectOption(Seq<char>),
}

impl View for LocateGoal {
    type V = GoalView;

    open spec fn view(&self) -> GoalView {
        match self {
            LocateGoal::FocusOnly => GoalView::FocusOnly,
            LocateGoal::DragSource { source } => GoalView::DragSource(*source),
            LocateGoal::SelectOption { option } => GoalView::SelectOption(option@),
        }
    }
}

/// Where the machine stands inside the current command: which browser
/// reply it is waiting for, and what it will do with it.
#[derive(Debug, PartialEq)]
pub enum Micro {
    /// The fixed pacing sleep before `cmd` begins.
    Pacing { cmd: Cmd },
    /// A `chill` sleep.
    Sleeping,
    /// A locator query is out for `locator` at the given pass and
    /// strategy position.
    Locating { locator: String, scroll: bool, pass: u8, strategy: u8, goal: LocateGoal },
    /// Scrolling the found element into view.
    AwaitScroll { elem: u64, goal: LocateGoal },
    /// Outlining the found element (demo mode).
    AwaitHighlight { elem: u64, goal: LocateGoal },
    /// Clearing the focused element before typing `text`.
    AwaitClear { text: String },
    /// Sending typed text.
    AwaitTypeKeys,
    /// Sending an upload path.
    AwaitUploadKeys,
    /// Sending the Enter key.
    AwaitPress,
    /// A click.
    AwaitClick,
    /// Reading element text into the variable `name`.
    AwaitText { name: String },
    /// Reading the focused element's tag name for a select command.
    AwaitTag { option: String },
    /// Finding the focused option's parent select control.
    AwaitParent { option: String },
    /// Wrapping the focused element as a select control.
    AwaitWrap { option: String },
    /// Choosing the option by visible text.
    AwaitSelect { option: String },
    /// A drag-and-drop.
    AwaitDrag,
    /// A screenshot capture.
    AwaitScreenshot,
    /// A navigation.
    AwaitNavigate,
    /// A page reload.
    AwaitRefresh,
}

/// Mathematical model of a [`Micro`].
pub enum MicroView {
    Pacing(crate::script::CmdView),
    Sleeping,
    Locating { locator: Seq<char>, scroll: bool, pass: u8, strategy: u8, goal: GoalView },
    AwaitScroll(u64, GoalView),
    AwaitHighlight(u64, GoalView),
    AwaitClear(Seq<char>),
    AwaitTypeKeys,
    AwaitUploadKeys,
    AwaitPress,
    AwaitClick,
    AwaitText(Seq<char>),
    AwaitTag(Seq<char>),
    AwaitParent(Seq<char>),
    AwaitWrap(Seq<char>),
    AwaitSelect(Seq<char>),
    AwaitDrag,
    AwaitScreenshot,
    AwaitNavigate,
    AwaitRefresh,
}

impl View for Micro {
    type V = MicroView;

    open spec fn view(&self) -> MicroView {
        match self {
            Micro::Pacing { cmd } => MicroView::Pacing(cmd@),
            Micro::Sleeping => MicroView::Sleeping,
            Micro::Locating { locator, scroll, pass, strategy, goal } => MicroView::Locating {
                locator: locator@,
                scroll: *scroll,
                pass: *pass,
                strategy: *strategy,
                goal: goal@,
            },
            Micro::AwaitScroll { elem, goal } => MicroView::AwaitScroll(*elem, goal@),
            Micro::AwaitHighlight { elem, goal } => MicroView::AwaitHighlight(*elem, goal@),
            Micro::AwaitClear { text } => MicroView::AwaitClear(text@),
            Micro::AwaitTypeKeys => MicroView::AwaitTypeKeys,
            Micro::AwaitUploadKeys => MicroView::AwaitUploadKeys,
            Micro::AwaitPress => MicroView::AwaitPress,
            Micro::AwaitClick => MicroView::AwaitClick,
            Micro::AwaitText { name } => MicroView::AwaitText(name@),
            Micro::AwaitTag { option } => MicroView::AwaitTag(option@),
            Micro::AwaitParent { option } => MicroView::AwaitParent(option@),
            Micro::AwaitWrap { option } => MicroView::AwaitWrap(option@),
            Micro::AwaitSelect { option } => MicroView::AwaitSelect(option@),
            Micro::AwaitDrag => MicroView::AwaitDrag,
            Micro::AwaitScreenshot => MicroView::AwaitScreenshot,
            Micro::AwaitNavigate => MicroView::AwaitNavigate,
            Micro::AwaitRefresh => MicroView::AwaitRefresh,
        }
    }
}

impl DeepView for Micro {
    type V = MicroView;

    open spec fn deep_view(&self) -> MicroView {
        self.view()
    }
}

/// What one micro-step of a command produced: a browser action to wait
/// for, the command's successful completion, or its failure.
#[derive(Debug, PartialEq)]
pub enum Flow {
    Yield(Action),
    DoneCmd,
    FailCmd(RunError),
}

/// What a parameter resolves to: the literal itself, or the variable's
/// value, or a parameter-resolution failure if the name is unassigned.
pub open spec fn resolve_spec(env: Seq<(String, String)>, p: ParamView) -> Result<
    Seq<char>,
    RunError,
> {
    match p {
        ParamView::Literal(s) => Ok(s),
        ParamView::Variable(v) => match lookup(env, v) {
            Some(x) => Ok(x),
            None => Err(RunError::UndefinedVariable),
        },
    }
}

/// Whether an executable resolution result agrees with the specified one.
pub open spec fn result_matches(r: Result<String, RunError>, s: Result<Seq<char>, RunError>) -> bool {
    match (r, s) {
        (Ok(v), Ok(t)) => v@ == t,
        (Err(e1), Err(e2)) => e1 == e2,
        _ => false,
    }
}

/// The log grew only by statement lines.
pub open spec fn only_statement_lines(pre: Seq<LogView>, post: Seq<LogView>) -> bool {
    &&& pre.is_prefix_of(post)
    &&& forall|i: int| pre.len() <= i < post.len() ==> post[i] is Statement
}

/// The log grew without any failure line.
pub open spec fn no_new_failures(pre: Seq<LogView>, post: Seq<LogView>) -> bool {
    &&& pre.is_prefix_of(post)
    &&& forall|i: int| pre.len() <= i < post.len() ==> !(post[i] is Failure)
}

/// The log holds a failure line it did not hold before.
pub open spec fn has_new_failure(pre: Seq<LogView>, post: Seq<LogView>) -> bool {
    exists|i: int| pre.len() <= i < post.len() && post[i] is Failure
}


/// What holds after a found element enters the focus-setting sequence:
/// first the optional scroll, then the demo outline, then the focus swap
/// and the goal's continuation.
pub open spec fn set_focus_post(
    pre: Interpreter,
    post: Interpreter,
    elem: u64,
    scroll: bool,
    goal: GoalView,
    f: Flow,
) -> bool {
    &&& (scroll ==> f == Flow::Yield(Action::ScrollIntoView { elem })
        && post.micro.deep_view() == Some(MicroView::AwaitScroll(elem, goal))
        && post.curr_elem == pre.curr_elem)
    &&& (!scroll ==> after_scroll_post(pre, post, elem, goal, f))
}

/// What holds once the element is scrolled (or scrolling was not asked):
/// demo mode outlines it before the focus swap.
pub open spec fn after_scroll_post(
    pre: Interpreter,
    post: Interpreter,
    elem: u64,
    goal: GoalView,
    f: Flow,
) -> bool {
    &&& (pre.is_demo ==> f == Flow::Yield(
        Action::Highlight { elem, previous: pre.curr_elem },
    ) && post.micro.deep_view() == Some(MicroView::AwaitHighlight(elem, goal))
        && post.curr_elem == pre.curr_elem)
    &&& (!pre.is_demo ==> finish_focus_post(post, elem, goal, f))
}

/// What holds once the element has become the focus, by goal.
pub open spec fn finish_focus_post(post: Interpreter, elem: u64, goal: GoalView, f: Flow) -> bool {
    &&& post.curr_elem == Some(elem)
    &&& (goal is FocusOnly ==> f == Flow::DoneCmd && post.micro is None)
    &&& (goal matches GoalView::DragSource(source) ==> f == Flow::Yield(
        Action::DragAndDrop { source, target: elem },
    ) && post.micro.deep_view() == Some(MicroView::AwaitDrag))
    &&& (goal matches GoalView::SelectOption(option) ==> (f matches Flow::Yield(a)
        && a matches Action::WrapSelect { elem: wrapped } && wrapped == elem)
        && post.micro.deep_view() == Some(MicroView::AwaitWrap(option)))
}

/// The next query a locate sends when a query came back empty: the next
/// strategy of the same pass, or the first strategy of the next pass with
/// its larger wait budget, or the locate failure once all three passes
/// are exhausted.
pub open spec fn locate_advance_post(
    post: Interpreter,
    locator: Seq<char>,
    scroll: bool,
    pass: u8,
    strategy: u8,
    goal: GoalView,
    f: Flow,
) -> bool {
    &&& (strategy < strategy_count() - 1 ==> query_out(
        post,
        locator,
        scroll,
        pass,
        (strategy + 1) as u8,
        goal,
        f,
    ))
    &&& (strategy >= strategy_count() - 1 && pass < pass_count() - 1 ==> query_out(
        post,
        locator,
        scroll,
        (pass + 1) as u8,
        0,
        goal,
        f,
    ))
    &&& (strategy >= strategy_count() - 1 && pass >= pass_count() - 1 ==> f == Flow::FailCmd(
        RunError::CouldNotLocate,
    ) && post.micro is None)
}

/// A locate query is out: its kind follows the strategy order, and only
/// the first strategy of a pass carries the pass's wait budget.
pub open spec fn query_out(
    post: Interpreter,
    locator: Seq<char>,
    scroll: bool,
    pass: u8,
    strategy: u8,
    goal: GoalView,
    f: Flow,
) -> bool {
    &&& (f matches Flow::Yield(a) && a matches Action::Query { kind, text, wait_secs }
        && kind == strategy_kind(strategy as int) && text@ == locator && wait_secs == query_wait(
        pass as int,
        strategy as int,
    ))
    &&& post.micro.deep_view() == Some(
        MicroView::Locating { locator, scroll, pass, strategy, goal },
    )
}


/// The state with the in-flight micro-state taken out, as [`Interpreter::step`]
/// does before consuming an event.
pub open spec fn with_micro_cleared(s: Interpreter) -> Interpreter {
    Interpreter { micro: None, ..s }
}

/// What handling a command's failure does. Inside a conditional's probe
/// the failure is swallowed: the body is discarded, nothing is logged, no
/// mode changes. Otherwise the failure is logged and its severity
/// applied: `Exit` ends the run with the early-exit verdict,
/// `Recoverable` enters error-sync mode.
pub open spec fn fail_post(pre: Interpreter, post: Interpreter, e: RunError) -> bool {
    &&& post.micro is None
    &&& post.rest@.len() == 0
    &&& post.probe_body is None
    &&& !post.recovering
    &&& post.stmts == pre.stmts
    &&& post.environment == pre.environment
    &&& post.curr_elem == pre.curr_elem
    &&& post.screenshot_buffer == pre.screenshot_buffer
    &&& post.stmts_since_last_error_handling == pre.stmts_since_last_error_handling
    &&& post.tried_again == pre.tried_again
    &&& post.is_demo == pre.is_demo
    &&& post.close_requested == pre.close_requested
    &&& (pre.in_probe() ==> post.log_buffer == pre.log_buffer && post.had_error == pre.had_error
        && post.done == pre.done)
    &&& (!pre.in_probe() ==> {
        &&& post.log() == pre.log().push(LogView::Failure(e))
        &&& (severity_for(pre.tried_again) == Severity::Exit ==> post.done == Some(true)
            && post.had_error == pre.had_error)
        &&& (severity_for(pre.tried_again) == Severity::Recoverable ==> post.done == pre.done
            && post.had_error)
    })
}

/// The opening of a locate: resolve the locator, then send the first
/// pass's placeholder query without waiting.
pub open spec fn locate_cmd_post(
    pre: Interpreter,
    post: Interpreter,
    p: ParamView,
    scroll: bool,
    f: Flow,
) -> bool {
    &&& fields_except_micro(pre, post)
    &&& match resolve_spec(pre.env(), p) {
        Err(e) => f == Flow::FailCmd(e),
        Ok(t) => {
            &&& (f matches Flow::Yield(a) && a matches Action::Query { kind, text, wait_secs }
                && kind == QueryKind::Placeholder && text@ == t && wait_secs == 0)
            &&& post.micro.deep_view() == Some(
                MicroView::Locating {
                    locator: t,
                    scroll,
                    pass: 0,
                    strategy: 0,
                    goal: GoalView::FocusOnly,
                },
            )
        },
    }
}

/// What dispatching one command after its pacing delay does: exactly the
/// handler of the command's variant runs, from resolving its parameter up
/// to its first browser action, its immediate effect (try-again), or its
/// immediate failure.
pub open spec fn dispatch_post(pre: Interpreter, post: Interpreter, c: CmdView, f: Flow) -> bool {
    &&& (f matches Flow::FailCmd(_) ==> state_eq(pre, post))
    &&& match c {
        CmdView::Locate(p) => locate_cmd_post(pre, post, p, true, f),
        CmdView::LocateNoScroll(p) => locate_cmd_post(pre, post, p, false, f),
        CmdView::Type(p) => fields_except_micro(pre, post) && match resolve_spec(pre.env(), p) {
            Err(e) => f == Flow::FailCmd(e),
            Ok(t) => match pre.curr_elem {
                None => f == Flow::FailCmd(RunError::NoFocus),
                Some(el) => (f matches Flow::Yield(a) && a matches Action::ClearElem { elem }
                    && elem == el) && post.micro.deep_view() == Some(MicroView::AwaitClear(t)),
            },
        },
        CmdView::Click => fields_except_micro(pre, post) && match pre.curr_elem {
            None => f == Flow::FailCmd(RunError::NoFocus),
            Some(el) => (f matches Flow::Yield(a) && a matches Action::Click { elem } && elem
                == el) && post.micro.deep_view() == Some(MicroView::AwaitClick),
        },
        CmdView::Refresh => fields_except_micro(pre, post) && f == Flow::Yield(Action::Refresh)
            && post.micro.deep_view() == Some(MicroView::AwaitRefresh),
        CmdView::TryAgain => {
            &&& f == Flow::DoneCmd
            &&& post.tried_again
            &&& post.stmts.deep_view() == pre.stmts.deep_view().push(
                StmtView::SetTryAgainFieldToFalse,
            ) + pre.stmts_since_last_error_handling.deep_view()
            &&& post.stmts_since_last_error_handling.deep_view().len() == 0
            &&& post.environment == pre.environment
            &&& post.curr_elem == pre.curr_elem
            &&& post.had_error == pre.had_error
            &&& post.log_buffer == pre.log_buffer
            &&& post.screenshot_buffer == pre.screenshot_buffer
            &&& post.is_demo == pre.is_demo
            &&& post.close_requested == pre.close_requested
            &&& post.rest == pre.rest
            &&& post.probe_body == pre.probe_body
            &&& post.recovering == pre.recovering
            &&& post.micro == pre.micro
            &&& post.done == pre.done
        },
        CmdView::Screenshot => {
            &&& post.log() == pre.log().push(LogView::ScreenshotNote)
            &&& f == Flow::Yield(Action::TakeScreenshot)
            &&& post.micro.deep_view() == Some(MicroView::AwaitScreenshot)
            &&& post.stmts == pre.stmts
            &&& post.environment == pre.environment
            &&& post.curr_elem == pre.curr_elem
            &&& post.had_error == pre.had_error
            &&& post.stmts_since_last_error_handling == pre.stmts_since_last_error_handling
            &&& post.tried_again == pre.tried_again
            &&& post.screenshot_buffer == pre.screenshot_buffer
            &&& post.is_demo == pre.is_demo
            &&& post.close_requested == pre.close_requested
            &&& post.rest == pre.rest
            &&& post.probe_body == pre.probe_body
            &&& post.recovering == pre.recovering
            &&& post.done == pre.done
        },
        CmdView::ReadTo(name) => fields_except_micro(pre, post) && match pre.curr_elem {
            None => f == Flow::FailCmd(RunError::NoFocus),
            Some(el) => (f matches Flow::Yield(a) && a matches Action::GetText { elem } && elem
                == el) && post.micro.deep_view() == Some(MicroView::AwaitText(name)),
        },
        CmdView::Url(p) => fields_except_micro(pre, post) && match resolve_spec(pre.env(), p) {
            Err(e) => f == Flow::FailCmd(e),
            Ok(t) => (f matches Flow::Yield(a) && a matches Action::Navigate { url } && url@
                == t) && post.micro.deep_view() == Some(MicroView::AwaitNavigate),
        },
        CmdView::Press(p) => fields_except_micro(pre, post) && match resolve_spec(pre.env(), p) {
            Err(e) => f == Flow::FailCmd(e),
            Ok(t) => {
                &&& (t != "Enter"@ ==> f == Flow::FailCmd(RunError::UnsupportedKey))
                &&& (t == "Enter"@ ==> match pre.curr_elem {
                    None => f == Flow::FailCmd(RunError::NoFocus),
                    Some(el) => (f matches Flow::Yield(a) && a matches Action::PressEnter {
                        elem,
                    } && elem == el) && post.micro.deep_view() == Some(MicroView::AwaitPress),
                })
            },
        },
        CmdView::Chill(p) => fields_except_micro(pre, post) && match resolve_spec(pre.env(), p) {
            Err(e) => f == Flow::FailCmd(e),
            Ok(t) => match parse_seconds_spec(t) {
                None => f == Flow::FailCmd(RunError::BadWaitValue),
                Some(n) => f == Flow::Yield(Action::Sleep { secs: n })
                    && post.micro.deep_view() == Some(MicroView::Sleeping),
            },
        },
        CmdView::Select(p) => fields_except_micro(pre, post) && match resolve_spec(pre.env(), p) {
            Err(e) => f == Flow::FailCmd(e),
            Ok(t) => match pre.curr_elem {
                None => f == Flow::FailCmd(RunError::NoFocus),
                Some(el) => (f matches Flow::Yield(a) && a matches Action::GetTagName { elem }
                    && elem == el) && post.micro.deep_view() == Some(MicroView::AwaitTag(t)),
            },
        },
        CmdView::DragTo(p) => fields_except_micro(pre, post) && match pre.curr_elem {
            None => f == Flow::FailCmd(RunError::NoFocus),
            Some(src) => match resolve_spec(pre.env(), p) {
                Err(e) => f == Flow::FailCmd(e),
                Ok(t) => {
                    &&& (f matches Flow::Yield(a) && a matches Action::Query {
                        kind,
                        text,
                        wait_secs,
                    } && kind == QueryKind::Placeholder && text@ == t && wait_secs == 0)
                    &&& post.micro.deep_view() == Some(
                        MicroView::Locating {
                            locator: t,
                            scroll: false,
                            pass: 0,
                            strategy: 0,
                            goal: GoalView::DragSource(src),
                        },
                    )
                },
            },
        },
        CmdView::Upload(p) => fields_except_micro(pre, post) && match resolve_spec(pre.env(), p) {
            Err(e) => f == Flow::FailCmd(e),
            Ok(t) => match pre.curr_elem {
                None => f == Flow::FailCmd(RunError::NoFocus),
                Some(el) => (f matches Flow::Yield(a) && a matches Action::SendKeys {
                    elem,
                    text,
                } && elem == el && text@ == t) && post.micro.deep_view() == Some(
                    MicroView::AwaitUploadKeys,
                ),
            },
        },
    }
}

/// The full event-consumption relation: what one event does to the
/// machine for each micro-state a command can be paused in, up to the
/// command's next action, its completion, or its failure.
pub open spec fn consume_post(
    pre: Interpreter,
    post: Interpreter,
    m: MicroView,
    ev: Event,
    f: Flow,
) -> bool {
    // a failing micro-step leaves the state untouched
    &&& (f matches Flow::FailCmd(_) ==> state_eq(pre, post))
    &&& post.had_error == pre.had_error
    &&& (pre.tried_again ==> post.tried_again)
    &&& post.done == pre.done
    &&& post.probe_body == pre.probe_body
    &&& post.rest == pre.rest
    &&& post.recovering == pre.recovering
    &&& post.is_demo == pre.is_demo
    &&& post.close_requested == pre.close_requested
    &&& no_new_failures(pre.log(), post.log())
    &&& pre.shots().is_prefix_of(post.shots())
    &&& (f matches Flow::Yield(a) ==> post.micro is Some && !(a matches Action::Finished { .. }))
    &&& (!(f matches Flow::Yield(_)) ==> post.micro is None)
    &&& (!(m is AwaitText) && !(m is Pacing) ==> post.environment == pre.environment)
    &&& (!(m is AwaitScreenshot) ==> post.screenshot_buffer == pre.screenshot_buffer)
    &&& (!(m is Pacing) ==> post.log_buffer == pre.log_buffer && post.stmts == pre.stmts
        && post.stmts_since_last_error_handling == pre.stmts_since_last_error_handling
        && post.tried_again == pre.tried_again)
    &&& match m {
        MicroView::Pacing(c) => dispatch_post(pre, post, c, f),
        MicroView::Sleeping => f == Flow::DoneCmd,
        MicroView::Locating { locator, scroll, pass, strategy, goal } => {
            &&& (ev matches Event::Found { elem } ==> set_focus_post(
                pre,
                post,
                elem,
                scroll,
                goal,
                f,
            ))
            &&& (!(ev matches Event::Found { .. }) ==> locate_advance_post(
                post,
                locator,
                scroll,
                pass,
                strategy,
                goal,
                f,
            ) && post.curr_elem == pre.curr_elem)
        },
        MicroView::AwaitScroll(elem, goal) => {
            &&& (ev matches Event::ActionOk ==> after_scroll_post(pre, post, elem, goal, f))
            &&& (!(ev matches Event::ActionOk) ==> f == Flow::FailCmd(RunError::ScrollFailed))
        },
        MicroView::AwaitHighlight(elem, goal) => {
            &&& (ev matches Event::ActionOk ==> finish_focus_post(post, elem, goal, f))
            &&& (!(ev matches Event::ActionOk) ==> f == Flow::FailCmd(RunError::HighlightFailed))
        },
        MicroView::AwaitClear(text) => {
            &&& (ev matches Event::ActionOk ==> match pre.curr_elem {
                Some(el) => (f matches Flow::Yield(a) && a matches Action::SendKeys {
                    elem,
                    text: sent,
                } && elem == el && sent@ == text) && post.micro.deep_view() == Some(
                    MicroView::AwaitTypeKeys,
                ),
                None => f == Flow::FailCmd(RunError::NoFocus),
            })
            &&& (!(ev matches Event::ActionOk) ==> f == Flow::FailCmd(RunError::ClearFailed))
        },
        MicroView::AwaitTypeKeys => ((ev matches Event::ActionOk) ==> f == Flow::DoneCmd) && (!(ev
            matches Event::ActionOk) ==> f == Flow::FailCmd(RunError::TypeFailed)),
        MicroView::AwaitUploadKeys => ((ev matches Event::ActionOk) ==> f == Flow::DoneCmd) && (!(
        ev matches Event::ActionOk) ==> f == Flow::FailCmd(RunError::UploadFailed)),
        MicroView::AwaitPress => ((ev matches Event::ActionOk) ==> f == Flow::DoneCmd) && (!(ev
            matches Event::ActionOk) ==> f == Flow::FailCmd(RunError::PressFailed)),
        MicroView::AwaitClick => ((ev matches Event::ActionOk) ==> f == Flow::DoneCmd) && (!(ev
            matches Event::ActionOk) ==> f == Flow::FailCmd(RunError::ClickFailed)),
        MicroView::AwaitText(name) => {
            &&& (ev matches Event::Text { value } ==> {
                &&& f == Flow::DoneCmd
                &&& post.environment.entries@.len() == pre.environment.entries@.len() + 1
                &&& post.environment.entries@ == pre.environment.entries@.push(
                    post.environment.entries@.last(),
                )
                &&& post.environment.entries@.last().0@ == name
                &&& post.environment.entries@.last().1@ == value@
            })
            &&& (!(ev matches Event::Text { .. }) ==> f == Flow::FailCmd(
                RunError::ReadTextFailed,
            ))
        },
        MicroView::AwaitTag(option) => {
            &&& (ev matches Event::Text { value } ==> {
                &&& (value@ == "option"@ ==> match pre.curr_elem {
                    Some(el) => (f matches Flow::Yield(a) && a matches Action::QueryParent {
                        elem,
                    } && elem == el) && post.micro.deep_view() == Some(
                        MicroView::AwaitParent(option),
                    ),
                    None => f == Flow::FailCmd(RunError::NoFocus),
                })
                &&& (value@ != "option"@ ==> match pre.curr_elem {
                    Some(el) => (f matches Flow::Yield(a) && a matches Action::WrapSelect {
                        elem,
                    } && elem == el) && post.micro.deep_view() == Some(
                        MicroView::AwaitWrap(option),
                    ),
                    None => f == Flow::FailCmd(RunError::NoFocus),
                })
            })
            &&& (!(ev matches Event::Text { .. }) ==> f == Flow::FailCmd(RunError::TagNameFailed))
        },
        MicroView::AwaitParent(option) => {
            &&& (ev matches Event::Found { elem } ==> set_focus_post(
                pre,
                post,
                elem,
                false,
                GoalView::SelectOption(option),
                f,
            ))
            &&& (!(ev matches Event::Found { .. }) ==> f == Flow::FailCmd(
                RunError::ParentSelectFailed,
            ))
        },
        MicroView::AwaitWrap(option) => {
            &&& (ev matches Event::ActionOk ==> match pre.curr_elem {
                Some(el) => (f matches Flow::Yield(a) && a matches Action::SelectByText {
                    elem,
                    text,
                } && elem == el && text@ == option) && post.micro.deep_view() == Some(
                    MicroView::AwaitSelect(option),
                ),
                None => f == Flow::FailCmd(RunError::NoFocus),
            })
            &&& (!(ev matches Event::ActionOk) ==> f == Flow::FailCmd(RunError::NotSelectable))
        },
        MicroView::AwaitSelect(_) => ((ev matches Event::ActionOk) ==> f == Flow::DoneCmd) && (!(
        ev matches Event::ActionOk) ==> f == Flow::FailCmd(RunError::OptionNotFound)),
        MicroView::AwaitDrag => ((ev matches Event::ActionOk) ==> f == Flow::DoneCmd) && (!(ev
            matches Event::ActionOk) ==> f == Flow::FailCmd(RunError::DragFailed)),
        MicroView::AwaitScreenshot => {
            &&& (ev matches Event::Bytes { data } ==> f == Flow::DoneCmd && post.shots()
                == pre.shots().push(data@))
            &&& (!(ev matches Event::Bytes { .. }) ==> f == Flow::FailCmd(
                RunError::ScreenshotFailed,
            ))
        },
        MicroView::AwaitNavigate => ((ev matches Event::ActionOk) ==> f == Flow::DoneCmd) && (!(ev
            matches Event::ActionOk) ==> f == Flow::FailCmd(RunError::NavigateFailed)),
        MicroView::AwaitRefresh => ((ev matches Event::ActionOk) ==> f == Flow::DoneCmd) && (!(ev
            matches Event::ActionOk) ==> f == Flow::FailCmd(RunError::RefreshFailed)),
    }
}

/// The interpreter: the execution core of the scripting language.
///
/// Drive it with [`Interpreter::interpret`] once, then feed every
/// requested action's outcome back through [`Interpreter::step`] until the
/// returned action is [`Action::Finished`].
#[derive(Debug)]
pub struct Interpreter {
    /// Pending statements, drained from the end; the initial load is the
    /// parsed sequence in reverse, so same-end removal reproduces
    /// top-to-bottom script order.
    pub stmts: Vec<Stmt>,
    /// The variable store.
    pub environment: Environment,
    /// The handle of the at-most-one focused element.
    pub curr_elem: Option<u64>,
    /// Error-sync mode: set by a recoverable failure, cleared by a
    /// successful catch-error boundary.
    pub had_error: bool,
    /// Statements recorded since the last catch-error boundary, for the
    /// try-again command to replay.
    pub stmts_since_last_error_handling: Vec<Stmt>,
    /// Retry mode: set by try-again, cleared when the internal marker
    /// statement is reached; while set, every failure is fatal.
    pub tried_again: bool,
    /// The run log, one line per attempted statement plus contextual lines.
    pub log_buffer: Vec<LogLine>,
    /// One raster image per successful screenshot command.
    pub screenshot_buffer: Vec<Vec<u8>>,
    /// Demo mode: freshly focused elements are outlined on the page.
    pub is_demo: bool,
    /// Whether the host asked for the session to be closed when the run ends.
    pub close_requested: bool,
    /// The remaining commands of the current chain, in reverse order.
    pub rest: Vec<Cmd>,
    /// While a conditional's probe runs: the body to run if it succeeds
    /// (already reversed). A probe failure skips the body silently.
    pub probe_body: Option<Vec<Cmd>>,
    /// While a catch-error boundary's chain runs: clear error-sync mode
    /// when it completes.
    pub recovering: bool,
    /// The micro-state of the command in flight, if one is awaiting a
    /// browser reply.
    pub micro: Option<Micro>,
    /// Set when the run is over, with the "exited early" outcome.
    pub done: Option<bool>,
}


/// Full state equality, field by field.
pub open spec fn state_eq(a: Interpreter, b: Interpreter) -> bool {
    &&& b.stmts == a.stmts
    &&& b.environment == a.environment
    &&& b.curr_elem == a.curr_elem
    &&& b.had_error == a.had_error
    &&& b.stmts_since_last_error_handling == a.stmts_since_last_error_handling
    &&& b.tried_again == a.tried_again
    &&& b.log_buffer == a.log_buffer
    &&& b.screenshot_buffer == a.screenshot_buffer
    &&& b.is_demo == a.is_demo
    &&& b.close_requested == a.close_requested
    &&& b.rest == a.rest
    &&& b.probe_body == a.probe_body
    &&& b.recovering == a.recovering
    &&& b.micro == a.micro
    &&& b.done == a.done
}

/// A statement that holds no command to run: the drive dequeues past it
/// without pausing.
pub open spec fn actionless(s: StmtView) -> bool {
    match s {
        StmtView::Cmd(cmds) => cmds.len() == 0,
        StmtView::If(_, _) => false,
        _ => true,
    }
}

/// The statement the drive dequeues in position `j` from `queue`, which
/// is drained from its end.
pub open spec fn nth_dequeued(queue: Seq<StmtView>, j: int) -> StmtView {
    queue[queue.len() - 1 - j]
}

/// The log lines that dequeuing the first `k` statements of `queue`
/// outside error-sync mode appends: one statement line each, in order.
pub open spec fn logged_lines(queue: Seq<StmtView>, k: int) -> Seq<LogView> {
    Seq::new(k as nat, |j: int| LogView::Statement(nth_dequeued(queue, j)))
}

/// The machine is paused at the first command of statement `s`: that
/// command's pacing delay is out and the statement's remaining commands
/// (or a conditional's body) are scheduled after it.
pub open spec fn starts_statement(s: StmtView, post: Interpreter, act: Action) -> bool {
    &&& act == Action::Pace
    &&& match s {
        StmtView::Cmd(cmds) => {
            &&& cmds.len() > 0
            &&& post.micro.deep_view() == Some(MicroView::Pacing(cmds[0]))
            &&& post.rest.deep_view() == cmds.reverse().drop_last()
            &&& post.probe_body is None
        },
        StmtView::If(c, body) => {
            &&& post.micro.deep_view() == Some(MicroView::Pacing(c))
            &&& post.rest@.len() == 0
            &&& post.probe_body.deep_view() == Some(body.reverse())
        },
        _ => false,
    }
}

/// Everything one drive of the machine guarantees, from the state it
/// starts in (`pre`) to the state it pauses or finishes in (`post`), with
/// the action handed to the host.
pub open spec fn drive_post(pre: Interpreter, post: Interpreter, act: Action) -> bool {
    // what a drive never touches
    &&& post.curr_elem == pre.curr_elem
    &&& post.screenshot_buffer == pre.screenshot_buffer
    &&& post.is_demo == pre.is_demo
    &&& post.close_requested == pre.close_requested
    // the queue is only consumed, from its end
    &&& post.stmts@.len() <= pre.stmts@.len()
    &&& post.stmts@ == pre.stmts@.subrange(0, post.stmts@.len() as int)
    // the log grows only by statement lines; the mode flags only fall
    &&& only_statement_lines(pre.log(), post.log())
    &&& (post.had_error ==> pre.had_error)
    &&& (post.tried_again ==> pre.tried_again)
    &&& post.environment.entries@.len() >= pre.environment.entries@.len()
    // a finished run stays finished, untouched
    &&& (pre.done is Some ==> state_eq(pre, post))
    // the returned action names the run's state
    &&& (act matches Action::Finished { exited_early, close_session } ==> post.done == Some(
        exited_early,
    ) && close_session == pre.close_requested)
    &&& ((act matches Action::Finished { .. }) <==> post.done is Some)
    &&& (!(act matches Action::Finished { .. }) ==> post.done is None && post.micro is Some)
    &&& (post.done == Some(true) ==> pre.done == Some(true) || pre.had_error)
    // finishing without a prior verdict means the queue was drained, and
    // the verdict is the error flag
    &&& (act matches Action::Finished { exited_early, .. } ==> (pre.done is None
        ==> post.stmts@.len() == 0 && exited_early == post.had_error))
    // chain sequencing: with commands left on the current chain, the next
    // one is paced and nothing else happens
    &&& (pre.done is None && pre.rest@.len() > 0 ==> {
        &&& act == Action::Pace
        &&& post.micro.deep_view() == Some(MicroView::Pacing(pre.rest.deep_view().last()))
        &&& post.rest.deep_view() == pre.rest.deep_view().drop_last()
        &&& post.stmts == pre.stmts
        &&& post.environment == pre.environment
        &&& post.log_buffer == pre.log_buffer
        &&& post.stmts_since_last_error_handling == pre.stmts_since_last_error_handling
        &&& post.had_error == pre.had_error
        &&& post.tried_again == pre.tried_again
        &&& post.probe_body == pre.probe_body
        &&& post.recovering == pre.recovering
    })
    // probe promotion: a probe that ran out of commands succeeded, so the
    // conditional's body chain starts
    &&& (pre.probe_body.deep_view() matches Some(b) ==> (pre.done is None && pre.rest@.len() == 0
        && b.len() > 0) ==> {
        &&& act == Action::Pace
        &&& post.micro.deep_view() == Some(MicroView::Pacing(b.last()))
        &&& post.rest.deep_view() == b.drop_last()
        &&& post.probe_body is None
        &&& post.stmts == pre.stmts
        &&& post.environment == pre.environment
        &&& post.log_buffer == pre.log_buffer
        &&& post.stmts_since_last_error_handling == pre.stmts_since_last_error_handling
        &&& post.had_error == pre.had_error
        &&& post.tried_again == pre.tried_again
        &&& post.recovering == pre.recovering
    })
    // recovery completion: a catch-error chain that ran out of commands
    // succeeded, so error-sync mode ends
    &&& (pre.done is None && pre.rest@.len() == 0 && pre.probe_body is None && pre.recovering ==> !post.had_error
        && !post.recovering)
    // while error-sync mode persists, nothing is logged
    &&& (pre.had_error && !pre.recovering && post.had_error ==> post.log_buffer == pre.log_buffer)
    // outside error-sync mode, exactly the dequeued statements are
    // logged, in order
    &&& (!pre.had_error ==> post.log() == pre.log() + logged_lines(
        pre.queue(),
        pre.stmts@.len() - post.stmts@.len(),
    ))
    // the drive stops at the first statement that holds a command
    &&& (pre.done is None && !pre.had_error && pre.rest@.len() == 0 && pre.probe_body is None
        && !pre.recovering ==> {
        let k = pre.stmts@.len() - post.stmts@.len();
        &&& (act matches Action::Finished { .. } ==> forall|j: int|
            0 <= j < k ==> actionless(#[trigger] nth_dequeued(pre.queue(), j)))
        &&& (!(act matches Action::Finished { .. }) ==> k >= 1 && (forall|j: int|
            0 <= j < k - 1 ==> actionless(#[trigger] nth_dequeued(pre.queue(), j)))
            && starts_statement(nth_dequeued(pre.queue(), k - 1), post, act))
    })
}

/// All fields equal but the log buffer.
pub open spec fn fields_except_log(pre: Interpreter, post: Interpreter) -> bool {
    &&& post.stmts == pre.stmts
    &&& post.environment == pre.environment
    &&& post.curr_elem == pre.curr_elem
    &&& post.had_error == pre.had_error
    &&& post.stmts_since_last_error_handling == pre.stmts_since_last_error_handling
    &&& post.tried_again == pre.tried_again
    &&& post.screenshot_buffer == pre.screenshot_buffer
    &&& post.is_demo == pre.is_demo
    &&& post.close_requested == pre.close_requested
    &&& post.rest == pre.rest
    &&& post.probe_body == pre.probe_body
    &&& post.recovering == pre.recovering
    &&& post.micro == pre.micro
    &&& post.done == pre.done
}

/// All fields equal but the micro-state.
pub open spec fn fields_except_micro(pre: Interpreter, post: Interpreter) -> bool {
    &&& post.stmts == pre.stmts
    &&& post.environment == pre.environment
    &&& post.curr_elem == pre.curr_elem
    &&& post.had_error == pre.had_error
    &&& post.stmts_since_last_error_handling == pre.stmts_since_last_error_handling
    &&& post.tried_again == pre.tried_again
    &&& post.log_buffer == pre.log_buffer
    &&& post.screenshot_buffer == pre.screenshot_buffer
    &&& post.is_demo == pre.is_demo
    &&& post.close_requested == pre.close_requested
    &&& post.rest == pre.rest
    &&& post.probe_body == pre.probe_body
    &&& post.recovering == pre.recovering
    &&& post.done == pre.done
}

/// All fields equal but the micro-state and the focus slot.
pub open spec fn fields_except_micro_and_focus(pre: Interpreter, post: Interpreter) -> bool {
    &&& post.stmts == pre.stmts
    &&& post.environment == pre.environment
    &&& post.had_error == pre.had_error
    &&& post.stmts_since_last_error_handling == pre.stmts_since_last_error_handling
    &&& post.tried_again == pre.tried_again
    &&& post.log_buffer == pre.log_buffer
    &&& post.screenshot_buffer == pre.screenshot_buffer
    &&& post.is_demo == pre.is_demo
    &&& post.close_requested == pre.close_requested
    &&& post.rest == pre.rest
    &&& post.probe_body == pre.probe_body
    &&& post.recovering == pre.recovering
    &&& post.done == pre.done
}

impl Interpreter {
    /// The pending-statement queue, as a sequence of statement models.
    pub open spec fn queue(self) -> Seq<StmtView> {
        self.stmts.deep_view()
    }

    /// The replay buffer, as a sequence of statement models.
    pub open spec fn replay(self) -> Seq<StmtView> {
        self.stmts_since_last_error_handling.deep_view()
    }

    /// The run log, as a sequence of line models.
    pub open spec fn log(self) -> Seq<LogView> {
        self.log_buffer.deep_view()
    }

    /// The screenshot buffer, as a sequence of byte sequences.
    pub open spec fn shots(self) -> Seq<Seq<u8>> {
        self.screenshot_buffer.deep_view()
    }

    /// The environment's entries.
    pub open spec fn env(self) -> Seq<(String, String)> {
        self.environment.entries@
    }

    /// Whether a conditional's probe is in flight.
    pub open spec fn in_probe(self) -> bool {
        self.probe_body is Some
    }

    /// Rank of the drive loop's non-yielding states, for termination.
    pub open spec fn loop_rank(self) -> int {
        if self.done is Some {
            0
        } else if self.rest@.len() > 0 {
            0
        } else if self.probe_body is Some {
            3
        } else if self.recovering {
            2
        } else {
            1
        }
    }

    /// Constructor. Loads the parsed statements in reverse so that
    /// popping from the end of the queue reproduces script order.
    pub fn new(stmts: Vec<Stmt>, is_demo: bool) -> (r: Self)
        ensures
            r.queue() == stmts.deep_view().reverse(),
            r.env().len() == 0,
            r.curr_elem is None,
            !r.had_error,
            r.replay().len() == 0,
            !r.tried_again,
            r.log().len() == 0,
            r.shots().len() == 0,
            r.is_demo == is_demo,
            !r.close_requested,
            r.rest@.len() == 0,
            r.probe_body is None,
            !r.recovering,
            r.micro is None,
            r.done is None,
    {
        let reversed = reversed_vec(stmts);
        Interpreter {
            stmts: reversed,
            environment: Environment::new(),
            curr_elem: None,
            had_error: false,
            stmts_since_last_error_handling: Vec::new(),
            tried_again: false,
            log_buffer: Vec::new(),
            screenshot_buffer: Vec::new(),
            is_demo,
            close_requested: false,
            rest: Vec::new(),
            probe_body: None,
            recovering: false,
            micro: None,
            done: None,
        }
    }

    /// Append one line to the run log.
    fn push_log(&mut self, line: LogLine)
        ensures
            final(self).log() == old(self).log().push(line@),
            fields_except_log(*old(self), *final(self)),
    {
        let ghost pre = self.log_buffer.deep_view();
        let ghost line_view = line@;
        self.log_buffer.push(line);
        proof {
            assert(self.log_buffer.deep_view() =~= pre.push(line_view));
        }
    }

    /// Record a statement in the replay buffer.
    fn push_replay(&mut self, stmt: &Stmt)
        ensures
            final(self).replay() == old(self).replay().push(stmt@),
            final(self).log_buffer == old(self).log_buffer,
            final(self).stmts == old(self).stmts,
            final(self).environment == old(self).environment,
            final(self).curr_elem == old(self).curr_elem,
            final(self).had_error == old(self).had_error,
            final(self).tried_again == old(self).tried_again,
            final(self).screenshot_buffer == old(self).screenshot_buffer,
            final(self).is_demo == old(self).is_demo,
            final(self).close_requested == old(self).close_requested,
            final(self).rest == old(self).rest,
            final(self).probe_body == old(self).probe_body,
            final(self).recovering == old(self).recovering,
            final(self).micro == old(self).micro,
            final(self).done == old(self).done,
    {
        let ghost pre = self.stmts_since_last_error_handling.deep_view();
        let copy = stmt.duplicate();
        let ghost copy_view = copy@;
        self.stmts_since_last_error_handling.push(copy);
        proof {
            assert(self.stmts_since_last_error_handling.deep_view() =~= pre.push(copy_view));
        }
    }

    /// Pair a failure with its severity: `Exit` exactly when a retry pass
    /// is active, `Recoverable` otherwise.
    pub fn error(&self, e: RunError) -> (r: (RunError, Severity))
        ensures
            r.0 == e,
            r.1 == severity_for(self.tried_again),
    {
        if self.tried_again {
            (e, Severity::Exit)
        } else {
            (e, Severity::Recoverable)
        }
    }

    /// The focused element's handle, or the missing-focus failure.
    pub fn get_curr_elem(&self) -> (r: Result<u64, RunError>)
        ensures
            r == match self.curr_elem {
                Some(e) => Ok::<u64, RunError>(e),
                None => Err::<u64, RunError>(RunError::NoFocus),
            },
    {
        match self.curr_elem {
            Some(e) => Ok(e),
            None => Err(RunError::NoFocus),
        }
    }

    /// Write a variable into the environment; this always succeeds.
    pub fn set_variable(&mut self, sv: SetVariableStmt)
        ensures
            final(self).env() == old(self).env().push((sv.variable_name, sv.value)),
            final(self).stmts == old(self).stmts,
            final(self).curr_elem == old(self).curr_elem,
            final(self).had_error == old(self).had_error,
            final(self).stmts_since_last_error_handling == old(self).stmts_since_last_error_handling,
            final(self).tried_again == old(self).tried_again,
            final(self).log_buffer == old(self).log_buffer,
            final(self).screenshot_buffer == old(self).screenshot_buffer,
            final(self).is_demo == old(self).is_demo,
            final(self).close_requested == old(self).close_requested,
            final(self).rest == old(self).rest,
            final(self).probe_body == old(self).probe_body,
            final(self).recovering == old(self).recovering,
            final(self).micro == old(self).micro,
            final(self).done == old(self).done,
    {
        self.environment.set_variable(sv.variable_name, sv.value);
    }

    /// Read a variable from the environment, or fail with the
    /// parameter-resolution failure if it was never assigned.
    pub fn get_variable(&self, name: &str) -> (r: Result<String, RunError>)
        ensures
            match r {
                Ok(v) => lookup(self.env(), name@) == Some(v@),
                Err(e) => lookup(self.env(), name@) is None && e == RunError::UndefinedVariable,
            },
    {
        match self.environment.get_variable(name) {
            Some(v) => Ok(v),
            None => Err(RunError::UndefinedVariable),
        }
    }

    /// Resolve a command parameter: a literal is its own value; a
    /// variable reference is looked up in the environment and fails with
    /// the parameter-resolution failure when undefined.
    pub fn resolve(&self, cmd_param: CmdParam) -> (r: Result<String, RunError>)
        ensures
            result_matches(r, resolve_spec(self.env(), cmd_param@)),
    {
        match cmd_param {
            CmdParam::Literal(s) => Ok(s),
            CmdParam::Variable(v) => self.get_variable(v.as_str()),
        }
    }

    /// Schedule one command: the fixed one-second pacing delay runs
    /// first, then the command itself.
    pub fn execute_cmd(&mut self, cmd: Cmd) -> (a: Action)
        ensures
            a == Action::Pace,
            final(self).micro.deep_view() == Some(MicroView::Pacing(cmd@)),
            fields_except_micro(*old(self), *final(self)),
    {
        self.micro = Some(Micro::Pacing { cmd });
        Action::Pace
    }

    /// Begin a command chain: its commands will run left to right,
    /// stopping at the first failure.
    pub fn execute_cmd_stmt(&mut self, cs: CmdStmt)
        ensures
            final(self).rest.deep_view() == cs@.reverse(),
            final(self).probe_body is None,
            final(self).stmts == old(self).stmts,
            final(self).environment == old(self).environment,
            final(self).curr_elem == old(self).curr_elem,
            final(self).had_error == old(self).had_error,
            final(self).stmts_since_last_error_handling == old(self).stmts_since_last_error_handling,
            final(self).tried_again == old(self).tried_again,
            final(self).log_buffer == old(self).log_buffer,
            final(self).screenshot_buffer == old(self).screenshot_buffer,
            final(self).is_demo == old(self).is_demo,
            final(self).close_requested == old(self).close_requested,
            final(self).recovering == old(self).recovering,
            final(self).micro == old(self).micro,
            final(self).done == old(self).done,
    {
        self.rest = reversed_vec(cs.cmds);
        self.probe_body = None;
    }

    /// Begin a conditional: the probe command runs first; if it succeeds
    /// the body chain runs as a normal chain, and if it fails the
    /// conditional succeeds vacuously, with no error and no log line.
    pub fn execute_if_stmt(&mut self, is_stmt: IfStmt)
        ensures
            final(self).rest.deep_view() == seq![is_stmt.condition@],
            final(self).probe_body.deep_view() == Some(is_stmt.then_branch@.reverse()),
            final(self).stmts == old(self).stmts,
            final(self).environment == old(self).environment,
            final(self).curr_elem == old(self).curr_elem,
            final(self).had_error == old(self).had_error,
            final(self).stmts_since_last_error_handling == old(self).stmts_since_last_error_handling,
            final(self).tried_again == old(self).tried_again,
            final(self).log_buffer == old(self).log_buffer,
            final(self).screenshot_buffer == old(self).screenshot_buffer,
            final(self).is_demo == old(self).is_demo,
            final(self).close_requested == old(self).close_requested,
            final(self).recovering == old(self).recovering,
            final(self).micro == old(self).micro,
            final(self).done == old(self).done,
    {
        let mut probe: Vec<Cmd> = Vec::new();
        probe.push(is_stmt.condition);
        self.rest = probe;
        self.probe_body = Some(reversed_vec(is_stmt.then_branch.cmds));
        proof {
            assert(self.rest.deep_view() =~= seq![is_stmt.condition@]);
        }
    }

    /// Dispatch one dequeued statement.
    ///
    /// Every statement is first recorded in the replay buffer, once. In
    /// normal mode the statement then takes effect; in error-sync mode
    /// every statement other than a catch-error boundary is skipped — it
    /// leaves the environment, focus, log, screenshots and every mode
    /// flag untouched; only the replay record remains.
    #[verifier::rlimit(100)]
    #[verifier::spinoff_prover]
    pub fn execute_stmt(&mut self, stmt: Stmt)
        ensures
            final(self).stmts == old(self).stmts,
            final(self).curr_elem == old(self).curr_elem,
            final(self).log_buffer == old(self).log_buffer,
            final(self).screenshot_buffer == old(self).screenshot_buffer,
            final(self).is_demo == old(self).is_demo,
            final(self).close_requested == old(self).close_requested,
            final(self).micro == old(self).micro,
            final(self).done == old(self).done,
            final(self).had_error == old(self).had_error,
            // error-sync skip: nothing happens beyond the replay record
            old(self).had_error && !stmt.is_catch() ==> {
                &&& final(self).replay() == old(self).replay().push(stmt@)
                &&& final(self).environment == old(self).environment
                &&& final(self).tried_again == old(self).tried_again
                &&& final(self).rest == old(self).rest
                &&& final(self).probe_body == old(self).probe_body
                &&& final(self).recovering == old(self).recovering
            },
            // a catch-error boundary reached in error-sync mode starts its
            // recovery chain
            old(self).had_error && stmt.is_catch() ==> {
                &&& (stmt matches Stmt::CatchErr(cs) ==> final(self).rest.deep_view()
                    == cs@.reverse())
                &&& final(self).probe_body is None
                &&& final(self).recovering
                &&& final(self).replay() == old(self).replay().push(stmt@)
                &&& final(self).environment == old(self).environment
                &&& final(self).tried_again == old(self).tried_again
            },
            // normal dispatch, by variant (the first three clauses key the
            // scheduling effect on the statement's model)
            !old(self).had_error ==> {
                &&& (stmt@ matches StmtView::Cmd(cmds) ==> final(self).rest.deep_view()
                    == cmds.reverse() && final(self).probe_body is None)
                &&& (stmt@ matches StmtView::If(c, body) ==> final(self).rest.deep_view()
                    == seq![c] && final(self).probe_body.deep_view() == Some(body.reverse()))
                &&& (actionless(stmt@) && old(self).rest@.len() == 0 && old(self).probe_body
                    is None ==> final(self).rest@.len() == 0 && final(self).probe_body is None)
                &&& (stmt matches Stmt::Cmd(cs) ==> {
                    &&& final(self).rest.deep_view() == cs@.reverse()
                    &&& final(self).probe_body is None
                    &&& final(self).replay() == old(self).replay().push(stmt@)
                    &&& final(self).environment == old(self).environment
                    &&& final(self).tried_again == old(self).tried_again
                    &&& final(self).recovering == old(self).recovering
                })
                &&& (stmt matches Stmt::If(is_stmt) ==> {
                    &&& final(self).rest.deep_view() == seq![is_stmt.condition@]
                    &&& final(self).probe_body.deep_view() == Some(
                        is_stmt.then_branch@.reverse(),
                    )
                    &&& final(self).replay() == old(self).replay().push(stmt@)
                    &&& final(self).environment == old(self).environment
                    &&& final(self).tried_again == old(self).tried_again
                    &&& final(self).recovering == old(self).recovering
                })
                &&& (stmt matches Stmt::SetVariable(sv) ==> {
                    &&& final(self).env() == old(self).env().push(
                        (sv.variable_name, sv.value),
                    )
                    &&& final(self).replay() == old(self).replay().push(stmt@)
                    &&& final(self).rest == old(self).rest
                    &&& final(self).probe_body == old(self).probe_body
                    &&& final(self).tried_again == old(self).tried_again
                    &&& final(self).recovering == old(self).recovering
                })
                &&& (stmt matches Stmt::Comment(_) ==> {
                    &&& final(self).replay() == old(self).replay().push(stmt@)
                    &&& final(self).environment == old(self).environment
                    &&& final(self).rest == old(self).rest
                    &&& final(self).probe_body == old(self).probe_body
                    &&& final(self).tried_again == old(self).tried_again
                    &&& final(self).recovering == old(self).recovering
                })
                // a boundary reached without an error: the guarded block
                // succeeded, so the replay buffer is discarded
                &&& (stmt matches Stmt::CatchErr(_) ==> {
                    &&& final(self).replay().len() == 0
                    &&& final(self).environment == old(self).environment
                    &&& final(self).rest == old(self).rest
                    &&& final(self).probe_body == old(self).probe_body
                    &&& final(self).tried_again == old(self).tried_again
                    &&& final(self).recovering == old(self).recovering
                })
                // the marker: the replayed statements all succeeded, so
                // retry mode ends
                &&& (stmt matches Stmt::SetTryAgainFieldToFalse ==> {
                    &&& !final(self).tried_again
                    &&& final(self).replay() == old(self).replay().push(stmt@)
                    &&& final(self).environment == old(self).environment
                    &&& final(self).rest == old(self).rest
                    &&& final(self).probe_body == old(self).probe_body
                    &&& final(self).recovering == old(self).recovering
                })
            },
    {
        let ghost gstmt: StmtView = stmt@;
        if !self.had_error {
            self.push_replay(&stmt);
            match stmt {
                Stmt::Cmd(cs) => {
                    let ghost cv = cs@;
                    self.execute_cmd_stmt(cs);
                    proof {
                        assert(gstmt == StmtView::Cmd(cv));
                        assert(self.rest.deep_view() == cv.reverse());
                        if cv.len() == 0 {
                            assert(self.rest.deep_view() =~= Seq::<CmdView>::empty());
                            assert(self.rest@.len() == 0);
                        }
                    }
                },
                Stmt::If(is_stmt) => {
                    let ghost cv = is_stmt.condition@;
                    let ghost bv = is_stmt.then_branch@;
                    self.execute_if_stmt(is_stmt);
                    proof {
                        assert(gstmt == StmtView::If(cv, bv));
                        assert(self.rest.deep_view() == seq![cv]);
                        assert(self.probe_body.deep_view() == Some(bv.reverse()));
                    }
                },
                Stmt::SetVariable(sv) => self.set_variable(sv),
                Stmt::Comment(_) => {},
                Stmt::CatchErr(_) => {
                    self.stmts_since_last_error_handling.clear();
                    proof {
                        assert(self.stmts_since_last_error_handling.deep_view() =~= Seq::<StmtView>::empty());
                    }
                },
                Stmt::SetTryAgainFieldToFalse => {
                    self.tried_again = false;
                },
            }
        } else {
            self.push_replay(&stmt);
            match stmt {
                Stmt::CatchErr(cs) => {
                    self.execute_cmd_stmt(cs);
                    self.recovering = true;
                },
                _ => {},
            }
        }
    }

    /// Re-execute the statements recorded since the last catch-error
    /// boundary: enter retry mode, enqueue the marker that will end it,
    /// then move the replay buffer onto the queue at the drained end.
    /// Because the queue is drained from that same end, the buffered
    /// statements are replayed starting from the most recently recorded
    /// one, and the marker comes out last.
    pub fn try_again(&mut self)
        ensures
            final(self).tried_again,
            final(self).queue() == old(self).queue().push(StmtView::SetTryAgainFieldToFalse)
                + old(self).replay(),
            final(self).replay().len() == 0,
            final(self).environment == old(self).environment,
            final(self).curr_elem == old(self).curr_elem,
            final(self).had_error == old(self).had_error,
            final(self).log_buffer == old(self).log_buffer,
            final(self).screenshot_buffer == old(self).screenshot_buffer,
            final(self).is_demo == old(self).is_demo,
            final(self).close_requested == old(self).close_requested,
            final(self).rest == old(self).rest,
            final(self).probe_body == old(self).probe_body,
            final(self).recovering == old(self).recovering,
            final(self).micro == old(self).micro,
            final(self).done == old(self).done,
    {
        let ghost pre_queue = self.stmts.deep_view();
        let ghost pre_replay = self.stmts_since_last_error_handling.deep_view();
        self.tried_again = true;
        self.stmts.push(Stmt::SetTryAgainFieldToFalse);
        self.stmts.append(&mut self.stmts_since_last_error_handling);
        proof {
            assert(self.stmts.deep_view() =~= pre_queue.push(StmtView::SetTryAgainFieldToFalse)
                + pre_replay);
            assert(self.stmts_since_last_error_handling.deep_view() =~= Seq::<StmtView>::empty());
        }
    }

    /// Begin a locate command: resolve the locator, then send the first
    /// query of the first pass — the placeholder strategy, without
    /// waiting.
    pub fn locate(&mut self, locator: CmdParam, scroll_into_view: bool) -> (f: Flow)
        ensures
            fields_except_micro(*old(self), *final(self)),
            match resolve_spec(old(self).env(), locator@) {
                Err(e) => f == Flow::FailCmd(e) && final(self).micro == old(self).micro,
                Ok(t) => {
                    &&& (f matches Flow::Yield(a) && a matches Action::Query {
                        kind,
                        text,
                        wait_secs,
                    } && kind == QueryKind::Placeholder && text@ == t && wait_secs == 0)
                    &&& final(self).micro.deep_view() == Some(MicroView::Locating {
                        locator: t,
                        scroll: scroll_into_view,
                        pass: 0,
                        strategy: 0,
                        goal: GoalView::FocusOnly,
                    })
                },
            },
    {
        match self.resolve(locator) {
            Err(e) => Flow::FailCmd(e),
            Ok(text) => self.start_locating(text, scroll_into_view, LocateGoal::FocusOnly),
        }
    }

    /// Issue the opening query of a locate: pass zero, placeholder
    /// strategy, no waiting.
    fn start_locating(&mut self, text: String, scroll_into_view: bool, goal: LocateGoal) -> (f:
        Flow)
        ensures
            fields_except_micro(*old(self), *final(self)),
            (f matches Flow::Yield(a) && a matches Action::Query { kind, text: t, wait_secs }
                && kind == QueryKind::Placeholder && t@ == text@ && wait_secs == 0),
            final(self).micro.deep_view() == Some(MicroView::Locating {
                locator: text@,
                scroll: scroll_into_view,
                pass: 0,
                strategy: 0,
                goal: goal@,
            }),
    {
        let query_text = text.clone();
        self.micro = Some(Micro::Locating {
            locator: text,
            scroll: scroll_into_view,
            pass: 0,
            strategy: 0,
            goal,
        });
        Flow::Yield(Action::Query { kind: QueryKind::Placeholder, text: query_text, wait_secs: 0 })
    }

    /// Begin a type command: resolve the text, then clear the focused
    /// element before sending keystrokes.
    pub fn type_into_elem(&mut self, cmd_param: CmdParam) -> (f: Flow)
        ensures
            fields_except_micro(*old(self), *final(self)),
            match resolve_spec(old(self).env(), cmd_param@) {
                Err(e) => f == Flow::FailCmd(e) && final(self).micro == old(self).micro,
                Ok(t) => match old(self).curr_elem {
                    None => f == Flow::FailCmd(RunError::NoFocus) && final(self).micro == old(self).micro,
                    Some(el) => {
                        &&& (f matches Flow::Yield(a) && a matches Action::ClearElem { elem }
                            && elem == el)
                        &&& final(self).micro.deep_view() == Some(MicroView::AwaitClear(t))
                    },
                },
            },
    {
        match self.resolve(cmd_param) {
            Err(e) => Flow::FailCmd(e),
            Ok(text) => match self.get_curr_elem() {
                Err(e) => Flow::FailCmd(e),
                Ok(el) => {
                    self.micro = Some(Micro::AwaitClear { text });
                    Flow::Yield(Action::ClearElem { elem: el })
                },
            },
        }
    }

    /// Begin a click on the focused element.
    pub fn click(&mut self) -> (f: Flow)
        ensures
            fields_except_micro(*old(self), *final(self)),
            match old(self).curr_elem {
                None => f == Flow::FailCmd(RunError::NoFocus) && final(self).micro == old(self).micro,
                Some(el) => (f matches Flow::Yield(a) && a matches Action::Click { elem }
                    && elem == el) && final(self).micro.deep_view() == Some(MicroView::AwaitClick),
            },
    {
        match self.get_curr_elem() {
            Err(e) => Flow::FailCmd(e),
            Ok(el) => {
                self.micro = Some(Micro::AwaitClick);
                Flow::Yield(Action::Click { elem: el })
            },
        }
    }

    /// Begin a page reload.
    pub fn refresh(&mut self) -> (f: Flow)
        ensures
            fields_except_micro(*old(self), *final(self)),
            f == Flow::Yield(Action::Refresh),
            final(self).micro.deep_view() == Some(MicroView::AwaitRefresh),
    {
        self.micro = Some(Micro::AwaitRefresh);
        Flow::Yield(Action::Refresh)
    }

    /// Begin a screenshot: an informational line is logged first, then
    /// the capture is requested.
    pub fn screenshot(&mut self) -> (f: Flow)
        ensures
            final(self).log() == old(self).log().push(LogView::ScreenshotNote),
            f == Flow::Yield(Action::TakeScreenshot),
            final(self).micro.deep_view() == Some(MicroView::AwaitScreenshot),
            final(self).stmts == old(self).stmts,
            final(self).environment == old(self).environment,
            final(self).curr_elem == old(self).curr_elem,
            final(self).had_error == old(self).had_error,
            final(self).stmts_since_last_error_handling == old(self).stmts_since_last_error_handling,
            final(self).tried_again == old(self).tried_again,
            final(self).screenshot_buffer == old(self).screenshot_buffer,
            final(self).is_demo == old(self).is_demo,
            final(self).close_requested == old(self).close_requested,
            final(self).rest == old(self).rest,
            final(self).probe_body == old(self).probe_body,
            final(self).recovering == old(self).recovering,
            final(self).done == old(self).done,
    {
        self.push_log(LogLine::ScreenshotNote);
        self.micro = Some(Micro::AwaitScreenshot);
        Flow::Yield(Action::TakeScreenshot)
    }

    /// Begin reading the focused element's text into the named variable.
    pub fn read_to(&mut self, name: String) -> (f: Flow)
        ensures
            fields_except_micro(*old(self), *final(self)),
            match old(self).curr_elem {
                None => f == Flow::FailCmd(RunError::NoFocus) && final(self).micro == old(self).micro,
                Some(el) => (f matches Flow::Yield(a) && a matches Action::GetText { elem }
                    && elem == el) && final(self).micro.deep_view() == Some(
                    MicroView::AwaitText(name@),
                ),
            },
    {
        match self.get_curr_elem() {
            Err(e) => Flow::FailCmd(e),
            Ok(el) => {
                self.micro = Some(Micro::AwaitText { name });
                Flow::Yield(Action::GetText { elem: el })
            },
        }
    }

    /// Begin a navigation to the resolved URL.
    pub fn url_cmd(&mut self, url: CmdParam) -> (f: Flow)
        ensures
            fields_except_micro(*old(self), *final(self)),
            match resolve_spec(old(self).env(), url@) {
                Err(e) => f == Flow::FailCmd(e) && final(self).micro == old(self).micro,
                Ok(t) => (f matches Flow::Yield(a) && a matches Action::Navigate { url: u }
                    && u@ == t) && final(self).micro.deep_view() == Some(MicroView::AwaitNavigate),
            },
    {
        match self.resolve(url) {
            Err(e) => Flow::FailCmd(e),
            Ok(text) => {
                self.micro = Some(Micro::AwaitNavigate);
                Flow::Yield(Action::Navigate { url: text })
            },
        }
    }

    /// Begin a key press. Only the Enter key is supported; the key name
    /// is checked before focus, so an unsupported name fails with the
    /// malformed-parameter failure even when nothing is focused.
    pub fn press(&mut self, cp: CmdParam) -> (f: Flow)
        ensures
            fields_except_micro(*old(self), *final(self)),
            match resolve_spec(old(self).env(), cp@) {
                Err(e) => f == Flow::FailCmd(e) && final(self).micro == old(self).micro,
                Ok(t) => {
                    &&& (t != "Enter"@ ==> f == Flow::FailCmd(RunError::UnsupportedKey)
                        && final(self).micro == old(self).micro)
                    &&& (t == "Enter"@ ==> match old(self).curr_elem {
                        None => f == Flow::FailCmd(RunError::NoFocus) && final(self).micro == old(self).micro,
                        Some(el) => (f matches Flow::Yield(a) && a matches Action::PressEnter {
                            elem,
                        } && elem == el) && final(self).micro.deep_view() == Some(
                            MicroView::AwaitPress,
                        ),
                    })
                },
            },
    {
        match self.resolve(cp) {
            Err(e) => Flow::FailCmd(e),
            Ok(key) => {
                if !str_eq(key.as_str(), "Enter") {
                    return Flow::FailCmd(RunError::UnsupportedKey);
                }
                match self.get_curr_elem() {
                    Err(e) => Flow::FailCmd(e),
                    Ok(el) => {
                        self.micro = Some(Micro::AwaitPress);
                        Flow::Yield(Action::PressEnter { elem: el })
                    },
                }
            },
        }
    }

    /// Begin a wait: the resolved parameter must parse as a non-negative
    /// number of seconds, or the command fails with the
    /// malformed-parameter failure.
    pub fn chill(&mut self, cp: CmdParam) -> (f: Flow)
        ensures
            fields_except_micro(*old(self), *final(self)),
            match resolve_spec(old(self).env(), cp@) {
                Err(e) => f == Flow::FailCmd(e) && final(self).micro == old(self).micro,
                Ok(t) => match parse_seconds_spec(t) {
                    None => f == Flow::FailCmd(RunError::BadWaitValue) && final(self).micro == old(self).micro,
                    Some(n) => f == Flow::Yield(Action::Sleep { secs: n }) && final(self).micro.deep_view() == Some(MicroView::Sleeping),
                },
            },
    {
        match self.resolve(cp) {
            Err(e) => Flow::FailCmd(e),
            Ok(text) => match parse_seconds(text.as_str()) {
                None => Flow::FailCmd(RunError::BadWaitValue),
                Some(n) => {
                    self.micro = Some(Micro::Sleeping);
                    Flow::Yield(Action::Sleep { secs: n })
                },
            },
        }
    }

    /// Begin a select command: resolve the option text, then read the
    /// focused element's tag name (an option refocuses its parent select
    /// control before the control is wrapped).
    pub fn select(&mut self, cp: CmdParam) -> (f: Flow)
        ensures
            fields_except_micro(*old(self), *final(self)),
            match resolve_spec(old(self).env(), cp@) {
                Err(e) => f == Flow::FailCmd(e) && final(self).micro == old(self).micro,
                Ok(t) => match old(self).curr_elem {
                    None => f == Flow::FailCmd(RunError::NoFocus) && final(self).micro == old(self).micro,
                    Some(el) => (f matches Flow::Yield(a) && a matches Action::GetTagName { elem }
                        && elem == el) && final(self).micro.deep_view() == Some(
                        MicroView::AwaitTag(t),
                    ),
                },
            },
    {
        match self.resolve(cp) {
            Err(e) => Flow::FailCmd(e),
            Ok(option) => match self.get_curr_elem() {
                Err(e) => Flow::FailCmd(e),
                Ok(el) => {
                    self.micro = Some(Micro::AwaitTag { option });
                    Flow::Yield(Action::GetTagName { elem: el })
                },
            },
        }
    }

    /// Begin a drag command: the focused element is the source; the
    /// parameter is located (without scrolling) as the target, replacing
    /// focus, and the drag then runs from the remembered source to the
    /// new focus.
    pub fn drag_to(&mut self, cp: CmdParam) -> (f: Flow)
        ensures
            fields_except_micro(*old(self), *final(self)),
            match old(self).curr_elem {
                None => f == Flow::FailCmd(RunError::NoFocus) && final(self).micro == old(self).micro,
                Some(src) => match resolve_spec(old(self).env(), cp@) {
                    Err(e) => f == Flow::FailCmd(e) && final(self).micro == old(self).micro,
                    Ok(t) => {
                        &&& (f matches Flow::Yield(a) && a matches Action::Query {
                            kind,
                            text,
                            wait_secs,
                        } && kind == QueryKind::Placeholder && text@ == t && wait_secs == 0)
                        &&& final(self).micro.deep_view() == Some(MicroView::Locating {
                            locator: t,
                            scroll: false,
                            pass: 0,
                            strategy: 0,
                            goal: GoalView::DragSource(src),
                        })
                    },
                },
            },
    {
        match self.get_curr_elem() {
            Err(e) => Flow::FailCmd(e),
            Ok(src) => match self.resolve(cp) {
                Err(e) => Flow::FailCmd(e),
                Ok(text) => self.start_locating(
                    text,
                    false,
                    LocateGoal::DragSource { source: src },
                ),
            },
        }
    }

    /// Begin an upload: send the resolved filesystem path to the focused
    /// file input as keystrokes.
    pub fn upload(&mut self, cp: CmdParam) -> (f: Flow)
        ensures
            fields_except_micro(*old(self), *final(self)),
            match resolve_spec(old(self).env(), cp@) {
                Err(e) => f == Flow::FailCmd(e) && final(self).micro == old(self).micro,
                Ok(t) => match old(self).curr_elem {
                    None => f == Flow::FailCmd(RunError::NoFocus) && final(self).micro == old(self).micro,
                    Some(el) => (f matches Flow::Yield(a) && a matches Action::SendKeys {
                        elem,
                        text,
                    } && elem == el && text@ == t) && final(self).micro.deep_view() == Some(
                        MicroView::AwaitUploadKeys,
                    ),
                },
            },
    {
        match self.resolve(cp) {
            Err(e) => Flow::FailCmd(e),
            Ok(path) => match self.get_curr_elem() {
                Err(e) => Flow::FailCmd(e),
                Ok(el) => {
                    self.micro = Some(Micro::AwaitUploadKeys);
                    Flow::Yield(Action::SendKeys { elem: el, text: path })
                },
            },
        }
    }

    /// Dispatch one command after its pacing delay.
    #[verifier::rlimit(100)]
    #[verifier::spinoff_prover]
    fn dispatch_cmd(&mut self, cmd: Cmd) -> (f: Flow)
        requires
            old(self).micro is None,
        ensures
            dispatch_post(*old(self), *final(self), cmd@, f),
            final(self).curr_elem == old(self).curr_elem,
            final(self).screenshot_buffer == old(self).screenshot_buffer,
            final(self).had_error == old(self).had_error,
            old(self).tried_again ==> final(self).tried_again,
            final(self).done == old(self).done,
            final(self).probe_body == old(self).probe_body,
            final(self).rest == old(self).rest,
            final(self).recovering == old(self).recovering,
            final(self).is_demo == old(self).is_demo,
            final(self).close_requested == old(self).close_requested,
            final(self).environment == old(self).environment,
            no_new_failures(old(self).log(), final(self).log()),
            f matches Flow::Yield(a) ==> final(self).micro is Some && !(a
                matches Action::Finished { .. }),
            !(f matches Flow::Yield(_)) ==> final(self).micro is None,
    {
        match cmd {
            Cmd::Locate(locator) => self.locate(locator, true),
            Cmd::LocateNoScroll(locator) => self.locate(locator, false),
            Cmd::Type(txt) => self.type_into_elem(txt),
            Cmd::Click => self.click(),
            Cmd::Refresh => self.refresh(),
            Cmd::TryAgain => {
                self.try_again();
                Flow::DoneCmd
            },
            Cmd::Screenshot => self.screenshot(),
            Cmd::ReadTo(name) => self.read_to(name),
            Cmd::Url(url) => self.url_cmd(url),
            Cmd::Press(cp) => self.press(cp),
            Cmd::Chill(cp) => self.chill(cp),
            Cmd::Select(cp) => self.select(cp),
            Cmd::DragTo(cp) => self.drag_to(cp),
            Cmd::Upload(cp) => self.upload(cp),
        }
    }

    /// Make a freshly found element the focus: scroll it into view if
    /// asked, outline it in demo mode, then continue with the goal.
    fn set_focus_flow(&mut self, elem: u64, scroll: bool, goal: LocateGoal) -> (f: Flow)
        requires
            old(self).micro is None,
        ensures
            fields_except_micro_and_focus(*old(self), *final(self)),
            set_focus_post(*old(self), *final(self), elem, scroll, goal@, f),
    {
        if scroll {
            self.micro = Some(Micro::AwaitScroll { elem, goal });
            Flow::Yield(Action::ScrollIntoView { elem })
        } else {
            self.after_scroll(elem, goal)
        }
    }

    /// Outline the element in demo mode, or make it the focus at once.
    fn after_scroll(&mut self, elem: u64, goal: LocateGoal) -> (f: Flow)
        requires
            old(self).micro is None,
        ensures
            fields_except_micro_and_focus(*old(self), *final(self)),
            after_scroll_post(*old(self), *final(self), elem, goal@, f),
    {
        if self.is_demo {
            let previous = self.curr_elem;
            self.micro = Some(Micro::AwaitHighlight { elem, goal });
            Flow::Yield(Action::Highlight { elem, previous })
        } else {
            self.finish_focus(elem, goal)
        }
    }

    /// Replace the focus slot with the element and continue with the
    /// goal: a plain locate is now done; a drag runs from the remembered
    /// source to the new focus; a select wraps the new focus.
    fn finish_focus(&mut self, elem: u64, goal: LocateGoal) -> (f: Flow)
        requires
            old(self).micro is None,
        ensures
            fields_except_micro_and_focus(*old(self), *final(self)),
            finish_focus_post(*final(self), elem, goal@, f),
    {
        self.curr_elem = Some(elem);
        match goal {
            LocateGoal::FocusOnly => Flow::DoneCmd,
            LocateGoal::DragSource { source } => {
                self.micro = Some(Micro::AwaitDrag);
                Flow::Yield(Action::DragAndDrop { source, target: elem })
            },
            LocateGoal::SelectOption { option } => {
                self.micro = Some(Micro::AwaitWrap { option });
                Flow::Yield(Action::WrapSelect { elem })
            },
        }
    }

    /// Step a locate whose query was answered: a found element enters the
    /// focus-setting sequence and ends the search; anything else advances
    /// to the next strategy, the next pass, or the locate failure.
    fn locate_event(
        &mut self,
        locator: String,
        scroll: bool,
        pass: u8,
        strategy: u8,
        goal: LocateGoal,
        ev: Event,
    ) -> (f: Flow)
        requires
            old(self).micro is None,
        ensures
            fields_except_micro_and_focus(*old(self), *final(self)),
            ev matches Event::Found { elem } ==> set_focus_post(
                *old(self),
                *final(self),
                elem,
                scroll,
                goal@,
                f,
            ),
            !(ev matches Event::Found { .. }) ==> locate_advance_post(
                *final(self),
                locator@,
                scroll,
                pass,
                strategy,
                goal@,
                f,
            ) && final(self).curr_elem == old(self).curr_elem,
    {
        match ev {
            Event::Found { elem } => self.set_focus_flow(elem, scroll, goal),
            _ => {
                if strategy < 8 {
                    let next: u8 = strategy + 1;
                    let text = locator.clone();
                    self.micro = Some(
                        Micro::Locating { locator, scroll, pass, strategy: next, goal },
                    );
                    Flow::Yield(Action::Query { kind: kind_for(next), text, wait_secs: 0 })
                } else if pass < 2 {
                    let next_pass: u8 = pass + 1;
                    let wait = budget_for(next_pass);
                    let text = locator.clone();
                    self.micro = Some(
                        Micro::Locating { locator, scroll, pass: next_pass, strategy: 0, goal },
                    );
                    Flow::Yield(
                        Action::Query { kind: QueryKind::Placeholder, text, wait_secs: wait },
                    )
                } else {
                    Flow::FailCmd(RunError::CouldNotLocate)
                }
            },
        }
    }

    /// Consume the host's reply for the command in flight.
    #[verifier::rlimit(100)]
    #[verifier::spinoff_prover]
    fn handle_micro(&mut self, m: Micro, ev: Event) -> (f: Flow)
        requires
            old(self).micro is None,
        ensures
            consume_post(*old(self), *final(self), m@, ev, f),
    {
        match m {
            Micro::Pacing { cmd } => self.dispatch_cmd(cmd),
            Micro::Sleeping => Flow::DoneCmd,
            Micro::Locating { locator, scroll, pass, strategy, goal } => self.locate_event(
                locator,
                scroll,
                pass,
                strategy,
                goal,
                ev,
            ),
            Micro::AwaitScroll { elem, goal } => match ev {
                Event::ActionOk => self.after_scroll(elem, goal),
                _ => Flow::FailCmd(RunError::ScrollFailed),
            },
            Micro::AwaitHighlight { elem, goal } => match ev {
                Event::ActionOk => self.finish_focus(elem, goal),
                _ => Flow::FailCmd(RunError::HighlightFailed),
            },
            Micro::AwaitClear { text } => match ev {
                Event::ActionOk => match self.get_curr_elem() {
                    Err(e) => Flow::FailCmd(e),
                    Ok(el) => {
                        self.micro = Some(Micro::AwaitTypeKeys);
                        Flow::Yield(Action::SendKeys { elem: el, text })
                    },
                },
                _ => Flow::FailCmd(RunError::ClearFailed),
            },
            Micro::AwaitTypeKeys => match ev {
                Event::ActionOk => Flow::DoneCmd,
                _ => Flow::FailCmd(RunError::TypeFailed),
            },
            Micro::AwaitUploadKeys => match ev {
                Event::ActionOk => Flow::DoneCmd,
                _ => Flow::FailCmd(RunError::UploadFailed),
            },
            Micro::AwaitPress => match ev {
                Event::ActionOk => Flow::DoneCmd,
                _ => Flow::FailCmd(RunError::PressFailed),
            },
            Micro::AwaitClick => match ev {
                Event::ActionOk => Flow::DoneCmd,
                _ => Flow::FailCmd(RunError::ClickFailed),
            },
            Micro::AwaitText { name } => match ev {
                Event::Text { value } => {
                    self.environment.set_variable(name, value);
                    Flow::DoneCmd
                },
                _ => Flow::FailCmd(RunError::ReadTextFailed),
            },
            Micro::AwaitTag { option } => match ev {
                Event::Text { value } => {
                    if str_eq(value.as_str(), "option") {
                        match self.get_curr_elem() {
                            Err(e) => Flow::FailCmd(e),
                            Ok(el) => {
                                self.micro = Some(Micro::AwaitParent { option });
                                Flow::Yield(Action::QueryParent { elem: el })
                            },
                        }
                    } else {
                        match self.get_curr_elem() {
                            Err(e) => Flow::FailCmd(e),
                            Ok(el) => {
                                self.micro = Some(Micro::AwaitWrap { option });
                                Flow::Yield(Action::WrapSelect { elem: el })
                            },
                        }
                    }
                },
                _ => Flow::FailCmd(RunError::TagNameFailed),
            },
            Micro::AwaitParent { option } => match ev {
                Event::Found { elem } => self.set_focus_flow(
                    elem,
                    false,
                    LocateGoal::SelectOption { option },
                ),
                _ => Flow::FailCmd(RunError::ParentSelectFailed),
            },
            Micro::AwaitWrap { option } => match ev {
                Event::ActionOk => match self.get_curr_elem() {
                    Err(e) => Flow::FailCmd(e),
                    Ok(el) => {
                        let text = option.clone();
                        self.micro = Some(Micro::AwaitSelect { option });
                        Flow::Yield(Action::SelectByText { elem: el, text })
                    },
                },
                _ => Flow::FailCmd(RunError::NotSelectable),
            },
            Micro::AwaitSelect { option: _ } => match ev {
                Event::ActionOk => Flow::DoneCmd,
                _ => Flow::FailCmd(RunError::OptionNotFound),
            },
            Micro::AwaitDrag => match ev {
                Event::ActionOk => Flow::DoneCmd,
                _ => Flow::FailCmd(RunError::DragFailed),
            },
            Micro::AwaitScreenshot => match ev {
                Event::Bytes { data } => {
                    let ghost pre = self.screenshot_buffer.deep_view();
                    let ghost data_shallow = data@;
                    let ghost data_deep = data.deep_view();
                    self.screenshot_buffer.push(data);
                    proof {
                        assert(data_deep =~= data_shallow);
                        assert(self.screenshot_buffer.deep_view() =~= pre.push(data_shallow));
                        assert(pre.is_prefix_of(self.screenshot_buffer.deep_view()));
                    }
                    Flow::DoneCmd
                },
                _ => Flow::FailCmd(RunError::ScreenshotFailed),
            },
            Micro::AwaitNavigate => match ev {
                Event::ActionOk => Flow::DoneCmd,
                _ => Flow::FailCmd(RunError::NavigateFailed),
            },
            Micro::AwaitRefresh => match ev {
                Event::ActionOk => Flow::DoneCmd,
                _ => Flow::FailCmd(RunError::RefreshFailed),
            },
        }
    }

    /// Handle a command's failure. Inside a conditional's probe the
    /// failure is swallowed: the body is skipped, nothing is logged and no
    /// mode changes. Otherwise the failure is logged and its severity
    /// applied: `Exit` (a retry pass was active) ends the run with the
    /// early-exit outcome; `Recoverable` enters error-sync mode.
    fn command_failed(&mut self, e: RunError)
        requires
            old(self).micro is None,
        ensures
            fail_post(*old(self), *final(self), e),
    {
        self.rest = Vec::new();
        self.recovering = false;
        if self.probe_body.is_some() {
            // the conditional's probe failed: the conditional succeeds
            // vacuously
            self.probe_body = None;
            return ;
        }
        let (err, sev) = self.error(e);
        self.push_log(LogLine::Failure(err));
        match sev {
            Severity::Exit => {
                self.done = Some(true);
            },
            Severity::Recoverable => {
                self.had_error = true;
            },
        }
    }

    /// Start the next command of the current chain: pop it and pace it.
    fn start_next_cmd(&mut self) -> (act: Action)
        requires
            old(self).micro is None,
            old(self).rest@.len() > 0,
        ensures
            act == Action::Pace,
            final(self).micro.deep_view() == Some(
                MicroView::Pacing(old(self).rest.deep_view().last()),
            ),
            final(self).rest.deep_view() == old(self).rest.deep_view().drop_last(),
            final(self).stmts == old(self).stmts,
            final(self).environment == old(self).environment,
            final(self).curr_elem == old(self).curr_elem,
            final(self).had_error == old(self).had_error,
            final(self).stmts_since_last_error_handling == old(self).stmts_since_last_error_handling,
            final(self).tried_again == old(self).tried_again,
            final(self).log_buffer == old(self).log_buffer,
            final(self).screenshot_buffer == old(self).screenshot_buffer,
            final(self).is_demo == old(self).is_demo,
            final(self).close_requested == old(self).close_requested,
            final(self).probe_body == old(self).probe_body,
            final(self).recovering == old(self).recovering,
            final(self).done == old(self).done,
    {
        let ghost pre_rest = self.rest.deep_view();
        let cmd = self.rest.pop().unwrap();
        proof {
            assert(cmd@ == pre_rest.last());
            assert(self.rest.deep_view() =~= pre_rest.drop_last());
        }
        self.execute_cmd(cmd)
    }

    #[verifier::loop_isolation(false)]
    #[verifier::rlimit(100)]
    fn run_until_action(&mut self) -> (act: Action)
        requires
            old(self).micro is None,
        ensures
            drive_post(*old(self), *final(self), act),
    {
        proof {
            lemma_prefix_refl(old(self).log());
            assert(old(self).stmts@ =~= old(self).stmts@.subrange(
                0,
                old(self).stmts@.len() as int,
            ));
            assert(old(self).log() + logged_lines(old(self).queue(), 0) =~= old(self).log());
        }
        if let Some(early) = self.done {
            return Action::Finished { exited_early: early, close_session: self.close_requested };
        }
        if self.rest.len() > 0 {
            return self.start_next_cmd();
        }
        if self.probe_body.is_some() {
            // the probe ran out of commands, so it succeeded: the body
            // runs as a normal chain
            let body = self.probe_body.take().unwrap();
            self.rest = body;
            if self.rest.len() > 0 {
                return self.start_next_cmd();
            }
        }
        if self.recovering {
            // the recovery chain completed: error-sync mode ends
            self.recovering = false;
            self.had_error = false;
        }
        let ghost base = *self;
        loop
            invariant
                self.micro is None,
                self.done is None,
                self.rest@.len() == 0,
                self.probe_body is None,
                !self.recovering,
                self.curr_elem == base.curr_elem,
                self.screenshot_buffer == base.screenshot_buffer,
                self.environment.entries@.len() >= base.environment.entries@.len(),
                self.is_demo == base.is_demo,
                self.close_requested == base.close_requested,
                self.tried_again ==> base.tried_again,
                self.had_error ==> base.had_error,
                self.stmts@.len() <= base.stmts@.len(),
                self.stmts@ == base.stmts@.subrange(0, self.stmts@.len() as int),
                base.had_error && self.had_error ==> self.log_buffer == base.log_buffer,
                only_statement_lines(base.log(), self.log()),
                !base.had_error ==> !self.had_error && self.log() == base.log() + logged_lines(
                    base.queue(),
                    base.stmts@.len() - self.stmts@.len(),
                ),
                !base.had_error ==> forall|j: int|
                    0 <= j < base.stmts@.len() - self.stmts@.len() ==> actionless(
                        #[trigger] nth_dequeued(base.queue(), j),
                    ),
            decreases self.stmts@.len(),
        {
            let ghost at_head = *self;
            let next = self.stmts.pop();
            match next {
                None => {
                    self.done = Some(self.had_error);
                    return Action::Finished {
                        exited_early: self.had_error,
                        close_session: self.close_requested,
                    };
                },
                Some(stmt) => {
                    let ghost gs: StmtView = stmt@;
                    proof {
                        assert(at_head.stmts@.last() == base.stmts@[at_head.stmts@.len() - 1]);
                        assert(gs == nth_dequeued(
                            base.queue(),
                            base.stmts@.len() - at_head.stmts@.len(),
                        ));
                        assert(self.stmts@ =~= base.stmts@.subrange(0, self.stmts@.len() as int));
                    }
                    if !self.had_error {
                        let line = LogLine::Statement(stmt.duplicate());
                        let ghost pre_log = self.log_buffer.deep_view();
                        let ghost line_view = line@;
                        self.log_buffer.push(line);
                        proof {
                            assert(self.log_buffer.deep_view() =~= pre_log.push(line_view));
                        }
                    }
                    self.execute_stmt(stmt);
                    proof {
                        if !base.had_error {
                            assert(self.log() =~= base.log() + logged_lines(
                                base.queue(),
                                base.stmts@.len() - self.stmts@.len(),
                            ));
                        }
                    }
                    if self.rest.len() > 0 {
                        let ghost mid = *self;
                        let act = self.start_next_cmd();
                        proof {
                            let k = base.stmts@.len() - self.stmts@.len();
                            if !base.had_error {
                                match gs {
                                    StmtView::Cmd(cmds) => {
                                        assert(cmds.reverse().last() == cmds[0]);
                                        assert(self.rest.deep_view() =~= cmds.reverse().drop_last());
                                    },
                                    StmtView::If(c, body) => {
                                        assert(mid.rest.deep_view() == seq![c]);
                                        assert(seq![c].last() == c);
                                        assert(self.rest.deep_view() == mid.rest.deep_view()
                                            .drop_last());
                                        assert(self.rest.deep_view() =~= Seq::<CmdView>::empty());
                                        assert(self.rest@.len() == 0);
                                    },
                                    _ => {
                                        assert(false);
                                    },
                                }
                                assert(starts_statement(
                                    nth_dequeued(base.queue(), k - 1),
                                    *self,
                                    act,
                                ));
                            }
                        }
                        return act;
                    }
                    if self.recovering {
                        // an empty catch-error chain succeeds vacuously:
                        // error-sync mode ends at once
                        self.recovering = false;
                        self.had_error = false;
                    }
                    proof {
                        assert(self.rest.deep_view().len() == self.rest@.len());
                        assert(self.probe_body is None);
                        if !base.had_error {
                            match gs {
                                StmtView::If(_, _) => {
                                    assert(false);
                                },
                                _ => {},
                            }
                            assert(actionless(gs));
                            let k = base.stmts@.len() - self.stmts@.len();
                            assert(nth_dequeued(base.queue(), k - 1) == gs);
                            assert forall|j: int| 0 <= j < k implies actionless(
                                #[trigger] nth_dequeued(base.queue(), j),
                            ) by {
                                if j == k - 1 {
                                    assert(nth_dequeued(base.queue(), j) == gs);
                                }
                            }
                        }
                    }
                },
            }
        }
    }

    /// Begin a run: reset the focus slot, the mode flags and the replay
    /// buffer (the log, the screenshots and the environment persist), then
    /// drive the machine to its first action.
    ///
    /// The contract pins the whole drive: the queue is consumed from its
    /// end; every dequeued statement is logged, in order; the drive stops
    /// at the first statement holding a command, pacing that command with
    /// the rest of the statement scheduled; and the run finishes — always
    /// cleanly here, a failure not having had a chance to occur yet — only
    /// once the queue is drained, with everything before it actionless.
    pub fn interpret(&mut self, close_driver: bool) -> (act: Action)
        ensures
            final(self).curr_elem is None,
            !final(self).had_error,
            !final(self).tried_again,
            final(self).close_requested == close_driver,
            final(self).is_demo == old(self).is_demo,
            final(self).screenshot_buffer == old(self).screenshot_buffer,
            final(self).environment.entries@.len() >= old(self).environment.entries@.len(),
            final(self).stmts@.len() <= old(self).stmts@.len(),
            final(self).stmts@ == old(self).stmts@.subrange(0, final(self).stmts@.len() as int),
            final(self).log() == old(self).log() + logged_lines(
                old(self).queue(),
                old(self).stmts@.len() - final(self).stmts@.len(),
            ),
            act matches Action::Finished { exited_early, close_session } ==> {
                &&& !exited_early
                &&& close_session == close_driver
                &&& final(self).done == Some(false)
                &&& final(self).stmts@.len() == 0
                &&& forall|j: int|
                    0 <= j < old(self).stmts@.len() ==> actionless(
                        #[trigger] nth_dequeued(old(self).queue(), j),
                    )
            },
            !(act matches Action::Finished { .. }) ==> final(self).done is None && {
                let k = old(self).stmts@.len() - final(self).stmts@.len();
                &&& k >= 1
                &&& (forall|j: int|
                    0 <= j < k - 1 ==> actionless(#[trigger] nth_dequeued(old(self).queue(), j)))
                &&& starts_statement(nth_dequeued(old(self).queue(), k - 1), *final(self), act)
            },
    {
        self.curr_elem = None;
        self.had_error = false;
        self.stmts_since_last_error_handling = Vec::new();
        self.tried_again = false;
        self.close_requested = close_driver;
        self.rest = Vec::new();
        self.probe_body = None;
        self.recovering = false;
        self.micro = None;
        self.done = None;
        let ghost started = *self;
        let act = self.run_until_action();
        proof {
            assert(started.queue() == old(self).queue());
            assert(started.log() == old(self).log());
        }
        act
    }

    /// Resume the machine with the outcome of the action it last asked
    /// for, and run until it needs the host again.
    ///
    /// The contract composes three public relations: the event is consumed
    /// per [`consume_post`] (the per-state, per-event transition relation);
    /// a failure is handled per [`fail_post`] (probe swallowing, severity);
    /// and the machine then drives forward per [`drive_post`] (chain
    /// sequencing, probe promotion, recovery completion, logging, and the
    /// run verdict). On top of that: the retry bound — while a retry pass
    /// is active, any newly logged failure ends the run at once with the
    /// early-exit verdict — and the probe guarantee: while a conditional's
    /// probe is in flight, no failure is logged and error-sync mode is not
    /// entered.
    #[verifier::rlimit(100)]
    #[verifier::spinoff_prover]
    pub fn step(&mut self, ev: Event) -> (act: Action)
        ensures
            old(self).log().is_prefix_of(final(self).log()),
            old(self).shots().is_prefix_of(final(self).shots()),
            final(self).close_requested == old(self).close_requested,
            final(self).is_demo == old(self).is_demo,
            old(self).tried_again && has_new_failure(old(self).log(), final(self).log())
                ==> final(self).done == Some(true) && (act matches Action::Finished {
                exited_early,
                ..
            } && exited_early),
            old(self).in_probe() ==> no_new_failures(old(self).log(), final(self).log()) && (
            final(self).had_error ==> old(self).had_error),
            old(self).done is Some && old(self).micro is None ==> final(self).done == old(
                self,
            ).done && final(self).log_buffer == old(self).log_buffer,
            act matches Action::Finished { exited_early, close_session } ==> final(self).done
                == Some(exited_early) && close_session == final(self).close_requested,
            !(old(self).done is Some && old(self).micro is Some) ==> ((act
                matches Action::Finished { .. }) <==> final(self).done is Some),
            old(self).micro is None ==> drive_post(*old(self), *final(self), act),
            old(self).micro matches Some(m) ==> exists|mid: Interpreter, f: Flow|
                {
                    &&& #[trigger] consume_post(with_micro_cleared(*old(self)), mid, m@, ev, f)
                    &&& match f {
                        Flow::Yield(a) => act == a && state_eq(mid, *final(self)),
                        Flow::DoneCmd => drive_post(mid, *final(self), act),
                        Flow::FailCmd(e) => exists|stopped: Interpreter|
                            #[trigger] fail_post(mid, stopped, e) && drive_post(
                                stopped,
                                *final(self),
                                act,
                            ),
                    }
                },
    {
        let ghost pre = *old(self);
        let ghost gev = ev;
        let taken = self.micro.take();
        match taken {
            None => {
                let act = self.run_until_action();
                proof {
                    lemma_prefix_refl(pre.shots());
                    assert(drive_post(pre, *self, act));
                }
                act
            },
            Some(m) => {
                let ghost gm = m;
                let ghost cleared = *self;
                let f = self.handle_micro(m, ev);
                let ghost gf = f;
                let ghost mid = *self;
                proof {
                    assert(cleared == with_micro_cleared(pre));
                    assert(consume_post(with_micro_cleared(pre), mid, gm@, gev, gf));
                }
                match f {
                    Flow::Yield(a) => {
                        proof {
                            assert(state_eq(mid, *self));
                        }
                        a
                    },
                    Flow::DoneCmd => {
                        let act = self.run_until_action();
                        proof {
                            lemma_no_failures_then_statements(pre.log(), mid.log(), self.log());
                            lemma_prefix_refl(mid.shots());
                            lemma_prefix_trans(pre.shots(), mid.shots(), self.shots());
                            assert(drive_post(mid, *self, act));
                        }
                        act
                    },
                    Flow::FailCmd(e) => {
                        self.command_failed(e);
                        let ghost stopped = *self;
                        let act = self.run_until_action();
                        proof {
                            assert(fail_post(mid, stopped, e));
                            assert(drive_post(stopped, *self, act));
                            if mid.in_probe() {
                                lemma_no_failures_then_statements(
                                    pre.log(),
                                    stopped.log(),
                                    self.log(),
                                );
                            } else {
                                lemma_prefix_push_trans(pre.log(), mid.log(), e);
                                lemma_prefix_trans(pre.log(), stopped.log(), self.log());
                            }
                            lemma_prefix_refl(mid.shots());
                            lemma_prefix_trans(pre.shots(), mid.shots(), self.shots());
                        }
                        act
                    },
                }
            },
        }
    }
}

/// A sequence is a prefix of itself.
proof fn lemma_prefix_refl<A>(a: Seq<A>)
    ensures
        a.is_prefix_of(a),
{
    assert(a =~= a.subrange(0, a.len() as int));
}

/// Prefixes compose.
proof fn lemma_prefix_trans<A>(a: Seq<A>, b: Seq<A>, c: Seq<A>)
    requires
        a.is_prefix_of(b),
        b.is_prefix_of(c),
    ensures
        a.is_prefix_of(c),
{
    assert forall|i: int| 0 <= i < a.len() implies a[i] == c[i] by {
        assert(a[i] == b.subrange(0, a.len() as int)[i]);
        assert(b[i] == c.subrange(0, b.len() as int)[i]);
    }
    assert(a =~= c.subrange(0, a.len() as int));
}

/// A log that grew without failures and then only by statement lines
/// grew without failures.
proof fn lemma_no_failures_then_statements(a: Seq<LogView>, b: Seq<LogView>, c: Seq<LogView>)
    requires
        no_new_failures(a, b),
        only_statement_lines(b, c),
    ensures
        no_new_failures(a, c),
{
    lemma_prefix_trans(a, b, c);
    assert forall|i: int| a.len() <= i < c.len() implies !(c[i] is Failure) by {
        if i < b.len() {
            assert(b[i] == c.subrange(0, b.len() as int)[i]);
        }
    }
}

/// A log extended by one line keeps its old prefix.
proof fn lemma_prefix_push_trans(a: Seq<LogView>, b: Seq<LogView>, e: RunError)
    requires
        a.is_prefix_of(b),
    ensures
        a.is_prefix_of(b.push(LogView::Failure(e))),
{
    assert(b.is_prefix_of(b.push(LogView::Failure(e)))) by {
        assert(b =~= b.push(LogView::Failure(e)).subrange(0, b.len() as int));
    }
    lemma_prefix_trans(a, b, b.push(LogView::Failure(e)));
}

/// Reverse a vector, by view.
fn reversed_vec<T: DeepView>(v: Vec<T>) -> (r: Vec<T>)
    ensures
        r.deep_view() == v.deep_view().reverse(),
{
    let ghost orig = v.deep_view();
    let mut w = v;
    let mut out: Vec<T> = Vec::new();
    while w.len() > 0
        invariant
            w.deep_view() =~= orig.subrange(0, w@.len() as int),
            out.deep_view() =~= orig.subrange(w@.len() as int, orig.len() as int).reverse(),
            w@.len() <= orig.len(),
        decreases w@.len(),
    {
        let ghost pre_w = w.deep_view();
        let ghost pre_out = out.deep_view();
        let x = w.pop().unwrap();
        proof {
            assert(x.deep_view() == pre_w.last());
            assert(w.deep_view() =~= orig.subrange(0, w@.len() as int));
        }
        out.push(x);
        proof {
            assert(out.deep_view() =~= pre_out.push(x.deep_view()));
            assert(out.deep_view() =~= orig.subrange(
                w@.len() as int,
                orig.len() as int,
            ).reverse());
        }
    }
    proof {
        assert(out.deep_view() =~= orig.reverse());
    }
    out
}

} // verus!
