use hyprfocus::errors::FocusError;
use hyprfocus::flow::{Action, Event, Failure, Mode, Request, Runner, Step};

fn request(list: bool, status: bool, off: bool, restore: bool, theme: Option<&str>) -> Request {
    Request { list, status, off, restore, theme: theme.map(|t| t.to_string()) }
}

fn step(a: &Action) -> Option<Step> {
    match a {
        Action::Perform(s) => Some(*s),
        Action::Finish(_) => None,
    }
}

/// Runs the request, answering every step with the event `answer` gives,
/// and returns the steps asked for and the outcome.
fn drive(q: Request, mut answer: impl FnMut(Step) -> Event) -> (Vec<Step>, Result<(), Failure>) {
    let (mut runner, mut action) = Runner::start(q);
    let mut steps = Vec::new();
    loop {
        match action {
            Action::Finish(outcome) => return (steps, outcome),
            Action::Perform(s) => {
                steps.push(s);
                action = runner.advance(answer(s));
            }
        }
    }
}

#[test]
fn run_list() {
    let (steps, outcome) = drive(request(true, false, false, false, None), |_| Event::Succeeded);
    assert_eq!(steps, vec![Step::ShowThemes]);
    assert!(outcome.is_ok());
}

#[test]
fn run_unknown_theme() {
    let (runner, action) = Runner::start(request(false, false, false, false, Some("nonexistent")));
    assert!(runner.is_done());
    match action {
        Action::Finish(Err(Failure::Error(FocusError::UnknownTheme(name)))) => {
            assert_eq!(name, "nonexistent")
        }
        _ => panic!("expected an unknown theme"),
    }
}

#[test]
fn run_off_without_hyprland() {
    let (steps, outcome) = drive(request(false, false, true, false, None), |s| {
        if s == Step::CheckEnvironment {
            Event::Failed(FocusError::HyprlandNotRunning)
        } else {
            Event::Succeeded
        }
    });
    assert_eq!(steps, vec![Step::CheckEnvironment]);
    assert!(matches!(outcome, Err(Failure::Error(FocusError::HyprlandNotRunning))));
}

#[test]
fn run_theme_without_hyprland() {
    let (steps, outcome) = drive(request(false, false, false, false, Some("military")), |s| {
        if s == Step::CheckEnvironment {
            Event::Failed(FocusError::HyprlandNotRunning)
        } else {
            Event::Succeeded
        }
    });
    assert_eq!(steps, vec![Step::CheckEnvironment]);
    assert!(matches!(outcome, Err(Failure::Error(FocusError::HyprlandNotRunning))));
}

#[test]
fn run_restore_without_hyprland() {
    let (steps, outcome) = drive(request(false, false, false, true, Some("military")), |s| {
        if s == Step::CheckEnvironment {
            Event::Failed(FocusError::HyprlandNotRunning)
        } else {
            Event::Succeeded
        }
    });
    assert_eq!(steps, vec![Step::CheckEnvironment]);
    assert!(matches!(outcome, Err(Failure::Error(FocusError::HyprlandNotRunning))));
}

#[test]
fn run_restore_no_state_no_theme_is_error() {
    let (steps, outcome) = drive(request(false, false, false, true, None), |s| {
        if s == Step::LoadState {
            Event::Loaded(None)
        } else {
            Event::Succeeded
        }
    });
    assert_eq!(steps, vec![Step::CheckEnvironment, Step::LoadState]);
    match outcome {
        Err(f) => {
            assert!(matches!(f, Failure::NoThemeGiven));
            assert_eq!(f.text(), "no saved state and no --theme provided");
        }
        Ok(()) => panic!("expected a failure"),
    }
}

#[test]
fn run_status() {
    let (steps, outcome) = drive(request(false, true, false, false, None), |s| {
        if s == Step::LoadState {
            Event::Loaded(None)
        } else {
            Event::Succeeded
        }
    });
    assert_eq!(steps, vec![Step::LoadState, Step::ShowStatus]);
    assert!(outcome.is_ok());
}

#[test]
fn apply_runs_every_step_in_order() {
    let (runner, action) = Runner::start(request(false, false, false, false, Some("amber")));
    assert_eq!(runner.mode(), Mode::Apply);
    let sel = runner.selection().unwrap();
    assert_eq!(sel.theme, 2);
    assert!(!sel.from_saved);
    assert_eq!(step(&action), Some(Step::CheckEnvironment));
    let (steps, outcome) =
        drive(request(false, false, false, false, Some("amber")), |_| Event::Succeeded);
    assert_eq!(
        steps,
        vec![
            Step::CheckEnvironment,
            Step::ClearShader,
            Step::CleanupShaders,
            Step::WriteShader,
            Step::SetShader,
            Step::SaveState
        ]
    );
    assert!(outcome.is_ok());
}

#[test]
fn failing_to_clear_the_old_shader_is_only_a_warning() {
    let (steps, outcome) = drive(request(false, false, false, false, Some("cyber")), |s| {
        if s == Step::ClearShader {
            Event::Failed(FocusError::HyprctlFailed { code: 1, detail: "no".into() })
        } else {
            Event::Succeeded
        }
    });
    assert_eq!(steps.len(), 6);
    assert!(outcome.is_ok());
}

#[test]
fn off_stops_when_clearing_fails() {
    let (steps, outcome) = drive(request(false, false, true, false, None), |s| {
        if s == Step::ClearShader {
            Event::Failed(FocusError::HyprctlFailed { code: 2, detail: "no".into() })
        } else {
            Event::Succeeded
        }
    });
    assert_eq!(steps, vec![Step::CheckEnvironment, Step::ClearShader]);
    match outcome {
        Err(f) => assert_eq!(f.text(), "failed to clear shader: hyprctl failed with exit code 2: no"),
        Ok(()) => panic!("expected a failure"),
    }
}

#[test]
fn off_runs_every_step() {
    let (steps, outcome) = drive(request(false, false, true, false, None), |_| Event::Succeeded);
    assert_eq!(
        steps,
        vec![Step::CheckEnvironment, Step::ClearShader, Step::CleanupShaders, Step::ClearState]
    );
    assert!(outcome.is_ok());
}

#[test]
fn write_failure_is_reported_with_context() {
    let (steps, outcome) = drive(request(false, false, false, false, Some("void")), |s| {
        if s == Step::WriteShader {
            Event::Failed(FocusError::NoRuntimeDir)
        } else {
            Event::Succeeded
        }
    });
    assert_eq!(steps.last(), Some(&Step::WriteShader));
    match outcome {
        Err(f) => assert_eq!(
            f.text(),
            "failed to write shader: no runtime directory available (XDG_RUNTIME_DIR not set, /tmp fallback failed)"
        ),
        Ok(()) => panic!("expected a failure"),
    }
}

#[test]
fn restore_prefers_the_saved_theme() {
    let (mut runner, _) = Runner::start(request(false, false, false, true, Some("amber")));
    let a = runner.advance(Event::Succeeded);
    assert_eq!(step(&a), Some(Step::LoadState));
    let a = runner.advance(Event::Loaded(Some("walnut".into())));
    assert_eq!(step(&a), Some(Step::ClearShader));
    let sel = runner.selection().unwrap();
    assert_eq!(sel.theme, 12);
    assert!(sel.from_saved);
}

#[test]
fn restore_falls_back_on_the_command_line() {
    let (mut runner, _) = Runner::start(request(false, false, false, true, Some("amber")));
    runner.advance(Event::Succeeded);
    let a = runner.advance(Event::Loaded(None));
    assert_eq!(step(&a), Some(Step::ClearShader));
    let sel = runner.selection().unwrap();
    assert_eq!(sel.theme, 2);
    assert!(!sel.from_saved);
}

#[test]
fn restore_of_an_unknown_saved_theme_fails() {
    let (mut runner, _) = Runner::start(request(false, false, false, true, None));
    runner.advance(Event::Succeeded);
    let a = runner.advance(Event::Loaded(Some("gone".into())));
    assert!(matches!(a, Action::Finish(Err(Failure::Error(FocusError::UnknownTheme(_))))));
}

#[test]
fn load_failure_is_reported_with_context() {
    let (steps, outcome) = drive(request(false, true, false, false, None), |_| {
        Event::Failed(FocusError::StateReadFailed { path: "/s".into(), source: "bad".into() })
    });
    assert_eq!(steps, vec![Step::LoadState]);
    match outcome {
        Err(f) => assert_eq!(
            f.text(),
            "failed to read state: failed to read state from /s: bad: bad"
        ),
        Ok(()) => panic!("expected a failure"),
    }
}

#[test]
fn nothing_requested_does_nothing() {
    let (steps, outcome) = drive(request(false, false, false, false, None), |_| Event::Succeeded);
    assert!(steps.is_empty());
    assert!(outcome.is_ok());
}

#[test]
fn list_takes_precedence() {
    let (runner, action) = Runner::start(request(true, true, true, true, Some("nonexistent")));
    assert_eq!(runner.mode(), Mode::List);
    assert_eq!(step(&action), Some(Step::ShowThemes));
}

#[test]
fn chain_of_causes_ends_with_the_io_error() {
    let f = Failure::Error(FocusError::ShaderRemoveFailed { path: "/d".into(), source: "busy".into() });
    assert_eq!(f.text(), "failed to remove shader /d: busy: busy");
    let f = Failure::Context {
        context: "failed to apply shader",
        cause: FocusError::HyprctlFailed { code: 1, detail: "x".into() },
    };
    assert_eq!(f.text(), "failed to apply shader: hyprctl failed with exit code 1: x");
}
