//! The statement and command model: the abstract syntax the interpreter
//! consumes. A script is a sequence of [`Stmt`] values produced by an
//! external scanner/parser; the interpreter owns them for the run's
//! duration and never mutates them.

use vstd::prelude::*;

verus! {

/// A command argument: either a literal string or the name of a variable
/// that is resolved against the environment when the command runs,
/// never at parse time.
#[derive(Debug, PartialEq)]
pub enum CmdParam {
    Literal(String),
    Variable(String),
}

/// Mathematical model of a [`CmdParam`].
pub enum ParamView {
    Literal(Seq<char>),
    Variable(Seq<char>),
}

impl View for CmdParam {
    type V = ParamView;

    open spec fn view(&self) -> ParamView {
        match self {
            CmdParam::Literal(s) => ParamView::Literal(s@),
            CmdParam::Variable(s) => ParamView::Variable(s@),
        }
    }
}

impl DeepView for CmdParam {
    type V = ParamView;

    open spec fn deep_view(&self) -> ParamView {
        self.view()
    }
}

impl CmdParam {
    /// A copy with the same view.
    pub fn duplicate(&self) -> (r: Self)
        ensures
            r@ == self@,
    {
        match self {
            CmdParam::Literal(s) => CmdParam::Literal(s.clone()),
            CmdParam::Variable(s) => CmdParam::Variable(s.clone()),
        }
    }
}

/// A leaf command of the scripting language, carrying zero or one parameter.
#[derive(Debug, PartialEq)]
pub enum Cmd {
    /// Focus the element the parameter describes and scroll it into view.
    Locate(CmdParam),
    /// Focus the element the parameter describes without scrolling.
    LocateNoScroll(CmdParam),
    /// Clear the focused element, then send the resolved text as keystrokes.
    Type(CmdParam),
    /// Click the center of the focused element.
    Click,
    /// Reload the current page.
    Refresh,
    /// Re-run the statements recorded since the last catch-error boundary.
    TryAgain,
    /// Capture the page as an image and append it to the screenshot buffer.
    Screenshot,
    /// Read the focused element's visible text into the named variable.
    ReadTo(String),
    /// Navigate to the resolved URL.
    Url(CmdParam),
    /// Send the named key to the focused element.
    Press(CmdParam),
    /// Suspend for the resolved number of seconds.
    Chill(CmdParam),
    /// Choose an option of the focused select control by visible text.
    Select(CmdParam),
    /// Drag the focused element onto the element the parameter describes.
    DragTo(CmdParam),
    /// Send the resolved filesystem path to the focused file input.
    Upload(CmdParam),
}

/// Mathematical model of a [`Cmd`].
pub enum CmdView {
    Locate(ParamView),
    LocateNoScroll(ParamView),
    Type(ParamView),
    Click,
    Refresh,
    TryAgain,
    Screenshot,
    ReadTo(Seq<char>),
    Url(ParamView),
    Press(ParamView),
    Chill(ParamView),
    Select(ParamView),
    DragTo(ParamView),
    Upload(ParamView),
}

impl View for Cmd {
    type V = CmdView;

    open spec fn view(&self) -> CmdView {
        match self {
            Cmd::Locate(p) => CmdView::Locate(p@),
            Cmd::LocateNoScroll(p) => CmdView::LocateNoScroll(p@),
            Cmd::Type(p) => CmdView::Type(p@),
            Cmd::Click => CmdView::Click,
            Cmd::Refresh => CmdView::Refresh,
            Cmd::TryAgain => CmdView::TryAgain,
            Cmd::Screenshot => CmdView::Screenshot,
            Cmd::ReadTo(n) => CmdView::ReadTo(n@),
            Cmd::Url(p) => CmdView::Url(p@),
            Cmd::Press(p) => CmdView::Press(p@),
            Cmd::Chill(p) => CmdView::Chill(p@),
            Cmd::Select(p) => CmdView::Select(p@),
            Cmd::DragTo(p) => CmdView::DragTo(p@),
            Cmd::Upload(p) => CmdView::Upload(p@),
        }
    }
}

impl DeepView for Cmd {
    type V = CmdView;

    open spec fn deep_view(&self) -> CmdView {
        self.view()
    }
}

impl Cmd {
    /// A copy with the same view.
    pub fn duplicate(&self) -> (r: Self)
        ensures
            r@ == self@,
    {
        match self {
            Cmd::Locate(p) => Cmd::Locate(p.duplicate()),
            Cmd::LocateNoScroll(p) => Cmd::LocateNoScroll(p.duplicate()),
            Cmd::Type(p) => Cmd::Type(p.duplicate()),
            Cmd::Click => Cmd::Click,
            Cmd::Refresh => Cmd::Refresh,
            Cmd::TryAgain => Cmd::TryAgain,
            Cmd::Screenshot => Cmd::Screenshot,
            Cmd::ReadTo(n) => Cmd::ReadTo(n.clone()),
            Cmd::Url(p) => Cmd::Url(p.duplicate()),
            Cmd::Press(p) => Cmd::Press(p.duplicate()),
            Cmd::Chill(p) => Cmd::Chill(p.duplicate()),
            Cmd::Select(p) => Cmd::Select(p.duplicate()),
            Cmd::DragTo(p) => Cmd::DragTo(p.duplicate()),
            Cmd::Upload(p) => Cmd::Upload(p.duplicate()),
        }
    }
}

/// One script line: leaf commands joined by `and`, evaluated left to
/// right with short-circuit semantics (the first failure stops the line).
#[derive(Debug, PartialEq)]
pub struct CmdStmt {
    pub cmds: Vec<Cmd>,
}

impl View for CmdStmt {
    type V = Seq<CmdView>;

    open spec fn view(&self) -> Seq<CmdView> {
        self.cmds.deep_view()
    }
}

impl DeepView for CmdStmt {
    type V = Seq<CmdView>;

    open spec fn deep_view(&self) -> Seq<CmdView> {
        self.view()
    }
}

impl CmdStmt {
    /// A copy with the same view.
    pub fn duplicate(&self) -> (r: Self)
        ensures
            r@ == self@,
    {
        let mut out: Vec<Cmd> = Vec::new();
        let n: usize = self.cmds.len();
        let mut i: usize = 0;
        while i < n
            invariant
                i <= n,
                n == self.cmds.len(),
                out.deep_view() =~= self.cmds.deep_view().subrange(0, i as int),
            decreases n - i,
        {
            let ghost pre = out.deep_view();
            let c = self.cmds[i].duplicate();
            let ghost c_view = c@;
            out.push(c);
            proof {
                assert(out.deep_view() =~= pre.push(c_view));
                assert(out.deep_view() =~= self.cmds.deep_view().subrange(0, i as int + 1));
            }
            i = i + 1;
        }
        assert(out.deep_view() =~= self.cmds.deep_view());
        CmdStmt { cmds: out }
    }
}

/// A conditional: a probe command and the chain to run when it succeeds.
/// The grammar forbids nesting, so the body is a plain command chain.
#[derive(Debug, PartialEq)]
pub struct IfStmt {
    pub condition: Cmd,
    pub then_branch: CmdStmt,
}

impl View for IfStmt {
    type V = (CmdView, Seq<CmdView>);

    open spec fn view(&self) -> (CmdView, Seq<CmdView>) {
        (self.condition@, self.then_branch@)
    }
}

impl IfStmt {
    /// A copy with the same view.
    pub fn duplicate(&self) -> (r: Self)
        ensures
            r@ == self@,
    {
        IfStmt { condition: self.condition.duplicate(), then_branch: self.then_branch.duplicate() }
    }
}

/// An assignment of a literal value to a named variable.
#[derive(Debug, PartialEq)]
pub struct SetVariableStmt {
    pub variable_name: String,
    pub value: String,
}

impl View for SetVariableStmt {
    type V = (Seq<char>, Seq<char>);

    open spec fn view(&self) -> (Seq<char>, Seq<char>) {
        (self.variable_name@, self.value@)
    }
}

impl SetVariableStmt {
    /// A copy with the same view.
    pub fn duplicate(&self) -> (r: Self)
        ensures
            r@ == self@,
    {
        SetVariableStmt {
            variable_name: self.variable_name.clone(),
            value: self.value.clone(),
        }
    }
}

/// One statement of a script, as produced by the external parser.
#[derive(Debug, PartialEq)]
pub enum Stmt {
    /// A chain of commands.
    Cmd(CmdStmt),
    /// A conditional probe with a body.
    If(IfStmt),
    /// A variable assignment; it always succeeds.
    SetVariable(SetVariableStmt),
    /// A comment, kept only for reporting continuity.
    Comment(String),
    /// A catch-error boundary with the recovery chain to run after a
    /// recoverable failure.
    CatchErr(CmdStmt),
    /// Internal marker enqueued by `try-again`; reaching it means the
    /// replayed statements succeeded, so retry mode ends.
    SetTryAgainFieldToFalse,
}

/// Mathematical model of a [`Stmt`].
pub enum StmtView {
    Cmd(Seq<CmdView>),
    If(CmdView, Seq<CmdView>),
    SetVariable(Seq<char>, Seq<char>),
    Comment(Seq<char>),
    CatchErr(Seq<CmdView>),
    SetTryAgainFieldToFalse,
}

impl View for Stmt {
    type V = StmtView;

    open spec fn view(&self) -> StmtView {
        match self {
            Stmt::Cmd(cs) => StmtView::Cmd(cs@),
            Stmt::If(is) => StmtView::If(is.condition@, is.then_branch@),
            Stmt::SetVariable(sv) => StmtView::SetVariable(sv.variable_name@, sv.value@),
            Stmt::Comment(c) => StmtView::Comment(c@),
            Stmt::CatchErr(cs) => StmtView::CatchErr(cs@),
            Stmt::SetTryAgainFieldToFalse => StmtView::SetTryAgainFieldToFalse,
        }
    }
}

impl DeepView for Stmt {
    type V = StmtView;

    open spec fn deep_view(&self) -> StmtView {
        self.view()
    }
}

impl Stmt {
    /// A copy with the same view.
    pub fn duplicate(&self) -> (r: Self)
        ensures
            r@ == self@,
    {
        match self {
            Stmt::Cmd(cs) => Stmt::Cmd(cs.duplicate()),
            Stmt::If(is) => Stmt::If(is.duplicate()),
            Stmt::SetVariable(sv) => Stmt::SetVariable(sv.duplicate()),
            Stmt::Comment(c) => Stmt::Comment(c.clone()),
            Stmt::CatchErr(cs) => Stmt::CatchErr(cs.duplicate()),
            Stmt::SetTryAgainFieldToFalse => Stmt::SetTryAgainFieldToFalse,
        }
    }

    /// Whether this statement is a catch-error boundary.
    pub open spec fn is_catch(self) -> bool {
        self matches Stmt::CatchErr(_)
    }
}

} // verus!
