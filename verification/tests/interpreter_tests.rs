use schnauzer_ui::effects::{Action, Event, LogLine, QueryKind, RunError};
use schnauzer_ui::interpreter::Interpreter;
use schnauzer_ui::script::{Cmd, CmdParam, CmdStmt, IfStmt, SetVariableStmt, Stmt};

fn lit(s: &str) -> CmdParam {
    CmdParam::Literal(s.to_string())
}

fn chain(cmds: Vec<Cmd>) -> Stmt {
    Stmt::Cmd(CmdStmt { cmds })
}

fn failures(itp: &Interpreter) -> Vec<RunError> {
    let mut out = Vec::new();
    for line in itp.log_buffer.iter() {
        if let LogLine::Failure(e) = line {
            out.push(*e);
        }
    }
    out
}

#[test]
fn empty_script_finishes_cleanly() {
    let mut itp = Interpreter::new(vec![], false);
    let act = itp.interpret(true);
    assert_eq!(act, Action::Finished { exited_early: false, close_session: true });
}

#[test]
fn locator_precedence_placeholder_before_identifier() {
    let mut itp = Interpreter::new(vec![chain(vec![Cmd::Locate(lit("btn"))])], false);
    let act = itp.interpret(false);
    assert_eq!(act, Action::Pace);
    // The very first query of a locate is the placeholder strategy.
    let act = itp.step(Event::Tick);
    assert_eq!(
        act,
        Action::Query { kind: QueryKind::Placeholder, text: "btn".to_string(), wait_secs: 0 }
    );
    // Strategies advance in the documented order; the identifier strategy
    // comes only sixth.
    let expected = [
        QueryKind::LabelledInput,
        QueryKind::ExactText,
        QueryKind::PartialText,
        QueryKind::Title,
        QueryKind::Identifier,
    ];
    for kind in expected {
        let act = itp.step(Event::NotFound);
        assert_eq!(act, Action::Query { kind, text: "btn".to_string(), wait_secs: 0 });
    }
    // An element matching the pending identifier query still becomes the
    // focus of the machine through whichever strategy matched first.
    let act = itp.step(Event::Found { elem: 7 });
    assert_eq!(act, Action::ScrollIntoView { elem: 7 });
    let act = itp.step(Event::ActionOk);
    assert_eq!(itp.curr_elem, Some(7));
    assert_eq!(act, Action::Finished { exited_early: false, close_session: false });
}

#[test]
fn locator_placeholder_match_wins_immediately() {
    let mut itp = Interpreter::new(vec![chain(vec![Cmd::Locate(lit("Search"))])], false);
    itp.interpret(false);
    let act = itp.step(Event::Tick);
    assert_eq!(
        act,
        Action::Query { kind: QueryKind::Placeholder, text: "Search".to_string(), wait_secs: 0 }
    );
    // A placeholder match ends the search at once: no later strategy runs.
    let act = itp.step(Event::Found { elem: 3 });
    assert_eq!(act, Action::ScrollIntoView { elem: 3 });
    itp.step(Event::ActionOk);
    assert_eq!(itp.curr_elem, Some(3));
}

#[test]
fn locator_passes_escalate_wait_budgets_then_fail() {
    let mut itp = Interpreter::new(vec![chain(vec![Cmd::Locate(lit("x"))])], false);
    itp.interpret(false);
    let act = itp.step(Event::Tick);
    assert_eq!(
        act,
        Action::Query { kind: QueryKind::Placeholder, text: "x".to_string(), wait_secs: 0 }
    );
    // First pass: eight more strategies, none waiting.
    for _ in 0..8 {
        let act = itp.step(Event::NotFound);
        match act {
            Action::Query { wait_secs, .. } => assert_eq!(wait_secs, 0),
            other => panic!("expected a query, got {:?}", other),
        }
    }
    // Second pass opens with the placeholder strategy polling five seconds.
    let act = itp.step(Event::NotFound);
    assert_eq!(
        act,
        Action::Query { kind: QueryKind::Placeholder, text: "x".to_string(), wait_secs: 5 }
    );
    for _ in 0..8 {
        itp.step(Event::NotFound);
    }
    // Third pass: ten seconds.
    let act = itp.step(Event::NotFound);
    assert_eq!(
        act,
        Action::Query { kind: QueryKind::Placeholder, text: "x".to_string(), wait_secs: 10 }
    );
    for _ in 0..8 {
        itp.step(Event::NotFound);
    }
    // Exhausting all three passes fails the locate; with nothing left to
    // run, the run ends in the error state.
    let act = itp.step(Event::NotFound);
    assert_eq!(act, Action::Finished { exited_early: true, close_session: false });
    assert_eq!(failures(&itp), vec![RunError::CouldNotLocate]);
}

#[test]
fn scenario_a_second_locate_replaces_focus() {
    let stmts = vec![
        chain(vec![Cmd::Locate(lit("Search")), Cmd::Type(lit("cats"))]),
        chain(vec![Cmd::Locate(lit("Search")), Cmd::Type(lit("dogs"))]),
    ];
    let mut itp = Interpreter::new(stmts, false);
    assert_eq!(itp.interpret(false), Action::Pace);
    assert_eq!(
        itp.step(Event::Tick),
        Action::Query { kind: QueryKind::Placeholder, text: "Search".to_string(), wait_secs: 0 }
    );
    assert_eq!(itp.step(Event::Found { elem: 1 }), Action::ScrollIntoView { elem: 1 });
    assert_eq!(itp.step(Event::ActionOk), Action::Pace);
    assert_eq!(itp.curr_elem, Some(1));
    assert_eq!(itp.step(Event::Tick), Action::ClearElem { elem: 1 });
    assert_eq!(
        itp.step(Event::ActionOk),
        Action::SendKeys { elem: 1, text: "cats".to_string() }
    );
    assert_eq!(itp.step(Event::ActionOk), Action::Pace);
    // The second locate re-resolves the element and replaces the focus.
    assert_eq!(
        itp.step(Event::Tick),
        Action::Query { kind: QueryKind::Placeholder, text: "Search".to_string(), wait_secs: 0 }
    );
    assert_eq!(itp.step(Event::Found { elem: 2 }), Action::ScrollIntoView { elem: 2 });
    assert_eq!(itp.step(Event::ActionOk), Action::Pace);
    assert_eq!(itp.curr_elem, Some(2));
    // The typing clears and sends keys to the freshly resolved element.
    assert_eq!(itp.step(Event::Tick), Action::ClearElem { elem: 2 });
    assert_eq!(
        itp.step(Event::ActionOk),
        Action::SendKeys { elem: 2, text: "dogs".to_string() }
    );
    assert_eq!(
        itp.step(Event::ActionOk),
        Action::Finished { exited_early: false, close_session: false }
    );
}

#[test]
fn scenario_b_catch_error_recovers_and_retry_is_bounded() {
    let stmts = vec![
        chain(vec![Cmd::Locate(lit("A")), Cmd::Click]),
        Stmt::CatchErr(CmdStmt {
            cmds: vec![Cmd::Screenshot, Cmd::Refresh, Cmd::TryAgain],
        }),
    ];
    let mut itp = Interpreter::new(stmts, false);
    itp.interpret(false);
    itp.step(Event::Tick); // placeholder query for "A"
    itp.step(Event::Found { elem: 1 });
    assert_eq!(itp.step(Event::ActionOk), Action::Pace); // click next
    assert_eq!(itp.step(Event::Tick), Action::Click { elem: 1 });
    // The click fails: recoverable, so the machine syncs to the boundary
    // and runs its recovery chain.
    assert_eq!(itp.step(Event::ActionFailed), Action::Pace);
    assert!(itp.had_error);
    assert_eq!(failures(&itp), vec![RunError::ClickFailed]);
    assert_eq!(itp.step(Event::Tick), Action::TakeScreenshot);
    assert_eq!(itp.step(Event::Bytes { data: vec![9, 9] }), Action::Pace);
    assert_eq!(itp.screenshot_buffer.len(), 1);
    assert_eq!(itp.step(Event::Tick), Action::Refresh);
    assert_eq!(itp.step(Event::ActionOk), Action::Pace); // try-again next
    // try-again replays the statements buffered since the last boundary.
    assert_eq!(itp.step(Event::Tick), Action::Pace);
    assert!(itp.tried_again);
    assert!(!itp.had_error);
    assert_eq!(
        itp.step(Event::Tick),
        Action::Query { kind: QueryKind::Placeholder, text: "A".to_string(), wait_secs: 0 }
    );
    itp.step(Event::Found { elem: 1 });
    assert_eq!(itp.step(Event::ActionOk), Action::Pace);
    assert_eq!(itp.step(Event::Tick), Action::Click { elem: 1 });
    // A second failure during the replay is fatal: the run ends early
    // instead of retrying again.
    assert_eq!(
        itp.step(Event::ActionFailed),
        Action::Finished { exited_early: true, close_session: false }
    );
    assert_eq!(itp.screenshot_buffer.len(), 1);
    assert_eq!(failures(&itp), vec![RunError::ClickFailed, RunError::ClickFailed]);
}

#[test]
fn guarded_block_skips_statements_until_boundary() {
    let stmts = vec![
        chain(vec![Cmd::Click]), // fails: nothing focused
        Stmt::SetVariable(SetVariableStmt {
            variable_name: "y".to_string(),
            value: "1".to_string(),
        }),
        chain(vec![Cmd::Refresh]),
        Stmt::CatchErr(CmdStmt { cmds: vec![Cmd::Screenshot] }),
        Stmt::SetVariable(SetVariableStmt {
            variable_name: "z".to_string(),
            value: "2".to_string(),
        }),
    ];
    let mut itp = Interpreter::new(stmts, false);
    itp.interpret(false);
    // The click fails with the missing-focus failure; the following
    // assignment and refresh are skipped without effects; the boundary's
    // chain runs exactly once.
    assert_eq!(itp.step(Event::Tick), Action::Pace);
    assert_eq!(itp.step(Event::Tick), Action::TakeScreenshot);
    assert!(itp.get_variable("y").is_err());
    let act = itp.step(Event::Bytes { data: vec![1] });
    // After the boundary's chain succeeds, normal execution resumes.
    assert_eq!(act, Action::Finished { exited_early: false, close_session: false });
    assert!(!itp.had_error);
    assert!(itp.get_variable("y").is_err());
    assert_eq!(itp.get_variable("z").unwrap(), "2".to_string());
    assert_eq!(failures(&itp), vec![RunError::NoFocus]);
    assert_eq!(itp.screenshot_buffer.len(), 1);
}

#[test]
fn error_sync_records_each_skipped_statement_once() {
    let mut itp = Interpreter::new(vec![], false);
    itp.interpret(false);
    itp.had_error = true;
    itp.execute_stmt(Stmt::Comment("skipped".to_string()));
    assert_eq!(itp.stmts_since_last_error_handling.len(), 1);
}

#[test]
fn environment_round_trip() {
    let mut itp = Interpreter::new(vec![], false);
    itp.set_variable(SetVariableStmt {
        variable_name: "x".to_string(),
        value: "42".to_string(),
    });
    assert_eq!(
        itp.resolve(CmdParam::Variable("x".to_string())).unwrap(),
        "42".to_string()
    );
    assert_eq!(
        itp.resolve(CmdParam::Variable("missing".to_string())),
        Err(RunError::UndefinedVariable)
    );
    assert_eq!(itp.resolve(lit("plain")).unwrap(), "plain".to_string());
    // The latest assignment wins.
    itp.set_variable(SetVariableStmt {
        variable_name: "x".to_string(),
        value: "43".to_string(),
    });
    assert_eq!(itp.get_variable("x").unwrap(), "43".to_string());
}

#[test]
fn undefined_variable_fails_a_command() {
    let stmts = vec![chain(vec![Cmd::Url(CmdParam::Variable("target".to_string()))])];
    let mut itp = Interpreter::new(stmts, false);
    itp.interpret(false);
    let act = itp.step(Event::Tick);
    assert_eq!(act, Action::Finished { exited_early: true, close_session: false });
    assert_eq!(failures(&itp), vec![RunError::UndefinedVariable]);
}

#[test]
fn conditional_probe_failure_skips_body_silently() {
    let stmts = vec![
        Stmt::If(IfStmt {
            condition: Cmd::Click, // fails: nothing focused
            then_branch: CmdStmt { cmds: vec![Cmd::Refresh] },
        }),
        chain(vec![Cmd::Screenshot]),
    ];
    let mut itp = Interpreter::new(stmts, false);
    itp.interpret(false);
    assert_eq!(itp.step(Event::Tick), Action::Pace); // probe failed, next statement paces
    assert!(!itp.had_error);
    assert_eq!(failures(&itp), vec![]);
    // The body's refresh never ran; the next statement is the screenshot.
    assert_eq!(itp.step(Event::Tick), Action::TakeScreenshot);
}

#[test]
fn conditional_probe_success_runs_body() {
    let stmts = vec![
        chain(vec![Cmd::Locate(lit("A"))]),
        Stmt::If(IfStmt {
            condition: Cmd::Click,
            then_branch: CmdStmt { cmds: vec![Cmd::Refresh] },
        }),
    ];
    let mut itp = Interpreter::new(stmts, false);
    itp.interpret(false);
    itp.step(Event::Tick);
    itp.step(Event::Found { elem: 4 });
    itp.step(Event::ActionOk); // focus set; conditional paces
    assert_eq!(itp.step(Event::Tick), Action::Click { elem: 4 });
    assert_eq!(itp.step(Event::ActionOk), Action::Pace); // probe ok: body paces
    assert_eq!(itp.step(Event::Tick), Action::Refresh);
    assert_eq!(
        itp.step(Event::ActionOk),
        Action::Finished { exited_early: false, close_session: false }
    );
}

#[test]
fn conditional_body_failure_propagates() {
    let stmts = vec![
        chain(vec![Cmd::Locate(lit("A"))]),
        Stmt::If(IfStmt {
            condition: Cmd::Click,
            then_branch: CmdStmt { cmds: vec![Cmd::Refresh] },
        }),
    ];
    let mut itp = Interpreter::new(stmts, false);
    itp.interpret(false);
    itp.step(Event::Tick);
    itp.step(Event::Found { elem: 4 });
    itp.step(Event::ActionOk);
    itp.step(Event::Tick); // click probe
    itp.step(Event::ActionOk); // probe ok
    itp.step(Event::Tick); // body refresh
    let act = itp.step(Event::ActionFailed);
    assert_eq!(act, Action::Finished { exited_early: true, close_session: false });
    assert_eq!(failures(&itp), vec![RunError::RefreshFailed]);
}

#[test]
fn type_requires_focus() {
    let stmts = vec![chain(vec![Cmd::Type(lit("hello"))])];
    let mut itp = Interpreter::new(stmts, false);
    itp.interpret(false);
    let act = itp.step(Event::Tick);
    assert_eq!(act, Action::Finished { exited_early: true, close_session: false });
    assert_eq!(failures(&itp), vec![RunError::NoFocus]);
}

#[test]
fn read_to_stores_element_text() {
    let stmts = vec![chain(vec![Cmd::Locate(lit("label")), Cmd::ReadTo("out".to_string())])];
    let mut itp = Interpreter::new(stmts, false);
    itp.interpret(false);
    itp.step(Event::Tick);
    itp.step(Event::Found { elem: 8 });
    itp.step(Event::ActionOk);
    assert_eq!(itp.step(Event::Tick), Action::GetText { elem: 8 });
    let act = itp.step(Event::Text { value: "hello".to_string() });
    assert_eq!(act, Action::Finished { exited_early: false, close_session: false });
    assert_eq!(itp.get_variable("out").unwrap(), "hello".to_string());
}

#[test]
fn chill_sleeps_for_parsed_seconds() {
    let stmts = vec![chain(vec![Cmd::Chill(lit("2"))])];
    let mut itp = Interpreter::new(stmts, false);
    itp.interpret(false);
    assert_eq!(itp.step(Event::Tick), Action::Sleep { secs: 2 });
    assert_eq!(
        itp.step(Event::Tick),
        Action::Finished { exited_early: false, close_session: false }
    );
}

#[test]
fn chill_rejects_non_integer_wait() {
    let stmts = vec![chain(vec![Cmd::Chill(lit("soon"))])];
    let mut itp = Interpreter::new(stmts, false);
    itp.interpret(false);
    let act = itp.step(Event::Tick);
    assert_eq!(act, Action::Finished { exited_early: true, close_session: false });
    assert_eq!(failures(&itp), vec![RunError::BadWaitValue]);
}

#[test]
fn press_supports_only_enter() {
    let stmts = vec![
        chain(vec![Cmd::Locate(lit("field")), Cmd::Press(lit("Escape"))]),
    ];
    let mut itp = Interpreter::new(stmts, false);
    itp.interpret(false);
    itp.step(Event::Tick);
    itp.step(Event::Found { elem: 2 });
    itp.step(Event::ActionOk);
    let act = itp.step(Event::Tick);
    assert_eq!(act, Action::Finished { exited_early: true, close_session: false });
    assert_eq!(failures(&itp), vec![RunError::UnsupportedKey]);
}

#[test]
fn press_enter_sends_key_to_focus() {
    let stmts = vec![chain(vec![Cmd::Locate(lit("field")), Cmd::Press(lit("Enter"))])];
    let mut itp = Interpreter::new(stmts, false);
    itp.interpret(false);
    itp.step(Event::Tick);
    itp.step(Event::Found { elem: 2 });
    itp.step(Event::ActionOk);
    assert_eq!(itp.step(Event::Tick), Action::PressEnter { elem: 2 });
    assert_eq!(
        itp.step(Event::ActionOk),
        Action::Finished { exited_early: false, close_session: false }
    );
}

#[test]
fn select_refocuses_from_option_to_parent() {
    let stmts = vec![chain(vec![Cmd::Locate(lit("Two")), Cmd::Select(lit("Three"))])];
    let mut itp = Interpreter::new(stmts, false);
    itp.interpret(false);
    itp.step(Event::Tick);
    itp.step(Event::Found { elem: 5 });
    itp.step(Event::ActionOk);
    assert_eq!(itp.step(Event::Tick), Action::GetTagName { elem: 5 });
    // The focus is an option: its parent select control is focused first.
    assert_eq!(
        itp.step(Event::Text { value: "option".to_string() }),
        Action::QueryParent { elem: 5 }
    );
    assert_eq!(itp.step(Event::Found { elem: 6 }), Action::WrapSelect { elem: 6 });
    assert_eq!(itp.curr_elem, Some(6));
    assert_eq!(
        itp.step(Event::ActionOk),
        Action::SelectByText { elem: 6, text: "Three".to_string() }
    );
    assert_eq!(
        itp.step(Event::ActionOk),
        Action::Finished { exited_early: false, close_session: false }
    );
}

#[test]
fn select_wraps_non_option_directly() {
    let stmts = vec![chain(vec![Cmd::Locate(lit("menu")), Cmd::Select(lit("Two"))])];
    let mut itp = Interpreter::new(stmts, false);
    itp.interpret(false);
    itp.step(Event::Tick);
    itp.step(Event::Found { elem: 5 });
    itp.step(Event::ActionOk);
    itp.step(Event::Tick);
    assert_eq!(
        itp.step(Event::Text { value: "select".to_string() }),
        Action::WrapSelect { elem: 5 }
    );
    // The wrap fails: the element is not a select control.
    let act = itp.step(Event::ActionFailed);
    assert_eq!(act, Action::Finished { exited_early: true, close_session: false });
    assert_eq!(failures(&itp), vec![RunError::NotSelectable]);
}

#[test]
fn select_missing_option_fails() {
    let stmts = vec![chain(vec![Cmd::Locate(lit("menu")), Cmd::Select(lit("Nine"))])];
    let mut itp = Interpreter::new(stmts, false);
    itp.interpret(false);
    itp.step(Event::Tick);
    itp.step(Event::Found { elem: 5 });
    itp.step(Event::ActionOk);
    itp.step(Event::Tick);
    itp.step(Event::Text { value: "select".to_string() });
    itp.step(Event::ActionOk); // wrap ok
    let act = itp.step(Event::ActionFailed); // no option with that text
    assert_eq!(act, Action::Finished { exited_early: true, close_session: false });
    assert_eq!(failures(&itp), vec![RunError::OptionNotFound]);
}

#[test]
fn drag_to_locates_target_without_scroll_and_drags() {
    let stmts = vec![chain(vec![Cmd::Locate(lit("a")), Cmd::DragTo(lit("b"))])];
    let mut itp = Interpreter::new(stmts, false);
    itp.interpret(false);
    itp.step(Event::Tick);
    itp.step(Event::Found { elem: 1 });
    itp.step(Event::ActionOk);
    assert_eq!(
        itp.step(Event::Tick),
        Action::Query { kind: QueryKind::Placeholder, text: "b".to_string(), wait_secs: 0 }
    );
    // The target becomes the focus without scrolling, and the drag runs
    // from the remembered source.
    assert_eq!(
        itp.step(Event::Found { elem: 2 }),
        Action::DragAndDrop { source: 1, target: 2 }
    );
    assert_eq!(itp.curr_elem, Some(2));
    assert_eq!(
        itp.step(Event::ActionOk),
        Action::Finished { exited_early: false, close_session: false }
    );
}

#[test]
fn upload_sends_path_as_keystrokes() {
    let stmts = vec![chain(vec![Cmd::Locate(lit("file")), Cmd::Upload(lit("/tmp/a.txt"))])];
    let mut itp = Interpreter::new(stmts, false);
    itp.interpret(false);
    itp.step(Event::Tick);
    itp.step(Event::Found { elem: 3 });
    itp.step(Event::ActionOk);
    assert_eq!(
        itp.step(Event::Tick),
        Action::SendKeys { elem: 3, text: "/tmp/a.txt".to_string() }
    );
    assert_eq!(
        itp.step(Event::ActionOk),
        Action::Finished { exited_early: false, close_session: false }
    );
}

#[test]
fn demo_mode_highlights_and_hands_previous_focus_to_cleanup() {
    let stmts = vec![
        chain(vec![Cmd::Locate(lit("a"))]),
        chain(vec![Cmd::Locate(lit("b"))]),
    ];
    let mut itp = Interpreter::new(stmts, true);
    itp.interpret(false);
    itp.step(Event::Tick);
    itp.step(Event::Found { elem: 1 });
    assert_eq!(
        itp.step(Event::ActionOk),
        Action::Highlight { elem: 1, previous: None }
    );
    assert_eq!(itp.step(Event::ActionOk), Action::Pace);
    assert_eq!(itp.curr_elem, Some(1));
    itp.step(Event::Tick);
    itp.step(Event::Found { elem: 2 });
    // The previous occupant of the focus slot is handed to the cleanup
    // step explicitly.
    assert_eq!(
        itp.step(Event::ActionOk),
        Action::Highlight { elem: 2, previous: Some(1) }
    );
    itp.step(Event::ActionOk);
    assert_eq!(itp.curr_elem, Some(2));
}

#[test]
fn screenshot_failure_is_recoverable() {
    let stmts = vec![chain(vec![Cmd::Screenshot])];
    let mut itp = Interpreter::new(stmts, false);
    itp.interpret(false);
    assert_eq!(itp.step(Event::Tick), Action::TakeScreenshot);
    let act = itp.step(Event::ActionFailed);
    assert_eq!(act, Action::Finished { exited_early: true, close_session: false });
    assert_eq!(failures(&itp), vec![RunError::ScreenshotFailed]);
    assert_eq!(itp.screenshot_buffer.len(), 0);
}

#[test]
fn new_loads_queue_in_reverse() {
    let itp = Interpreter::new(
        vec![Stmt::Comment("first".to_string()), Stmt::Comment("second".to_string())],
        false,
    );
    assert_eq!(itp.stmts[0], Stmt::Comment("second".to_string()));
    assert_eq!(itp.stmts[1], Stmt::Comment("first".to_string()));
}

#[test]
fn close_session_request_is_reported_on_finish() {
    let stmts = vec![chain(vec![Cmd::Refresh])];
    let mut itp = Interpreter::new(stmts, false);
    itp.interpret(true);
    itp.step(Event::Tick);
    assert_eq!(
        itp.step(Event::ActionOk),
        Action::Finished { exited_early: false, close_session: true }
    );
}

#[test]
fn comments_are_logged_but_have_no_effect() {
    let stmts = vec![Stmt::Comment("note".to_string())];
    let mut itp = Interpreter::new(stmts, false);
    let act = itp.interpret(false);
    assert_eq!(act, Action::Finished { exited_early: false, close_session: false });
    assert_eq!(itp.log_buffer.len(), 1);
    assert_eq!(
        itp.log_buffer[0],
        LogLine::Statement(Stmt::Comment("note".to_string()))
    );
}

#[test]
fn try_again_enqueues_marker_then_replay_buffer() {
    let mut itp = Interpreter::new(vec![], false);
    itp.interpret(false);
    itp.execute_stmt(Stmt::Comment("recorded".to_string()));
    itp.try_again();
    assert!(itp.tried_again);
    assert!(itp.stmts_since_last_error_handling.is_empty());
    // The queue is drained from its end: the recorded statement comes out
    // first, the marker that ends retry mode last.
    assert_eq!(
        itp.stmts,
        vec![
            Stmt::SetTryAgainFieldToFalse,
            Stmt::Comment("recorded".to_string()),
        ]
    );
}

#[test]
fn navigate_goes_to_resolved_url() {
    let stmts = vec![
        Stmt::SetVariable(SetVariableStmt {
            variable_name: "target".to_string(),
            value: "http://localhost:1234".to_string(),
        }),
        chain(vec![Cmd::Url(CmdParam::Variable("target".to_string()))]),
    ];
    let mut itp = Interpreter::new(stmts, false);
    assert_eq!(itp.interpret(false), Action::Pace);
    assert_eq!(
        itp.step(Event::Tick),
        Action::Navigate { url: "http://localhost:1234".to_string() }
    );
    assert_eq!(
        itp.step(Event::ActionOk),
        Action::Finished { exited_early: false, close_session: false }
    );
}

#[test]
fn locator_second_strategy_match_sets_focus() {
    let stmts = vec![chain(vec![Cmd::LocateNoScroll(lit("Email"))])];
    let mut itp = Interpreter::new(stmts, false);
    itp.interpret(false);
    itp.step(Event::Tick); // placeholder query
    let act = itp.step(Event::NotFound);
    assert_eq!(
        act,
        Action::Query {
            kind: QueryKind::LabelledInput,
            text: "Email".to_string(),
            wait_secs: 0
        }
    );
    // The no-scroll variant focuses the match without scrolling it.
    let act = itp.step(Event::Found { elem: 11 });
    assert_eq!(act, Action::Finished { exited_early: false, close_session: false });
    assert_eq!(itp.curr_elem, Some(11));
}

#[test]
fn interpret_resets_state_between_runs() {
    let stmts = vec![chain(vec![Cmd::Click])];
    let mut itp = Interpreter::new(stmts, false);
    itp.interpret(false);
    let act = itp.step(Event::Tick); // click fails: no focus
    assert_eq!(act, Action::Finished { exited_early: true, close_session: false });
    assert!(itp.had_error);
    // A fresh run starts in normal mode with nothing focused; the queue
    // was drained, so it finishes at once and cleanly.
    let act = itp.interpret(false);
    assert_eq!(act, Action::Finished { exited_early: false, close_session: false });
    assert!(!itp.had_error);
    assert_eq!(itp.curr_elem, None);
}

#[test]
fn type_failure_reports_the_failing_stage() {
    let stmts = vec![chain(vec![Cmd::Locate(lit("f")), Cmd::Type(lit("abc"))])];
    let mut itp = Interpreter::new(stmts, false);
    itp.interpret(false);
    itp.step(Event::Tick);
    itp.step(Event::Found { elem: 1 });
    itp.step(Event::ActionOk);
    assert_eq!(itp.step(Event::Tick), Action::ClearElem { elem: 1 });
    // Clearing fails before any keystroke is sent.
    let act = itp.step(Event::ActionFailed);
    assert_eq!(act, Action::Finished { exited_early: true, close_session: false });
    assert_eq!(failures(&itp), vec![RunError::ClearFailed]);
}

#[test]
fn empty_recovery_chain_clears_error_sync() {
    let stmts = vec![
        chain(vec![Cmd::Click]), // fails: nothing focused
        Stmt::CatchErr(CmdStmt { cmds: vec![] }),
        Stmt::SetVariable(SetVariableStmt {
            variable_name: "z".to_string(),
            value: "2".to_string(),
        }),
    ];
    let mut itp = Interpreter::new(stmts, false);
    itp.interpret(false);
    // The boundary's empty chain succeeds vacuously: error-sync mode ends
    // and the assignment after it takes effect.
    let act = itp.step(Event::Tick);
    assert_eq!(act, Action::Finished { exited_early: false, close_session: false });
    assert!(!itp.had_error);
    assert_eq!(itp.get_variable("z").unwrap(), "2".to_string());
}
