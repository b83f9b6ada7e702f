//! What a run of hyprfocus does, step by step, for the request on its
//! command line.
//!
//! The program performs each step (a call of `hyprctl`, a file operation, a
//! print) and reports back how it went; the [`Runner`] decides what comes
//! next and how the run ends.

use vstd::prelude::*;
use crate::errors::{error_text, FocusError};
use crate::themes::{find_theme_index, is_theme_name, theme_names_are_distinct, theme_table};

verus! {

/// The parts of the command line that decide what a run does.
pub struct Request {
    pub list: bool,
    pub status: bool,
    pub off: bool,
    pub restore: bool,
    pub theme: Option<String>,
}

/// What a run does, chosen from the request.
#[derive(Debug, PartialEq, Eq, Structural, Clone, Copy)]
pub enum Mode {
    /// Print the built-in themes.
    List,
    /// Print the overlay in effect.
    Status,
    /// Remove the overlay.
    Off,
    /// Apply the saved overlay again, or the requested theme when none is saved.
    Restore,
    /// Apply the requested theme.
    Apply,
    /// Nothing was asked for.
    Idle,
}

/// One thing a run asks the program to do.
#[derive(Debug, PartialEq, Eq, Structural, Clone, Copy)]
pub enum Step {
    ShowThemes,
    LoadState,
    ShowStatus,
    CheckEnvironment,
    ClearShader,
    CleanupShaders,
    WriteShader,
    SetShader,
    SaveState,
    ClearState,
}

/// The mode a request selects: `--list` first, then `--status`, `--off`,
/// `--restore`, and a theme last.
pub open spec fn mode_of(r: Request) -> Mode {
    if r.list {
        Mode::List
    } else if r.status {
        Mode::Status
    } else if r.off {
        Mode::Off
    } else if r.restore {
        Mode::Restore
    } else if r.theme is Some {
        Mode::Apply
    } else {
        Mode::Idle
    }
}

/// The steps of each mode, in the order they are performed.
pub open spec fn plan(m: Mode) -> Seq<Step> {
    match m {
        Mode::List => seq![Step::ShowThemes],
        Mode::Status => seq![Step::LoadState, Step::ShowStatus],
        Mode::Off => seq![
            Step::CheckEnvironment,
            Step::ClearShader,
            Step::CleanupShaders,
            Step::ClearState,
        ],
        Mode::Restore => seq![
            Step::CheckEnvironment,
            Step::LoadState,
            Step::ClearShader,
            Step::CleanupShaders,
            Step::WriteShader,
            Step::SetShader,
            Step::SaveState,
        ],
        Mode::Apply => seq![
            Step::CheckEnvironment,
            Step::ClearShader,
            Step::CleanupShaders,
            Step::WriteShader,
            Step::SetShader,
            Step::SaveState,
        ],
        Mode::Idle => Seq::empty(),
    }
}

/// What becomes of a run when one of its steps fails.
#[derive(Debug)]
pub enum OnFailure {
    /// The run ends with the step's error as it is.
    Stop,
    /// The run ends with the step's error, under the given context.
    StopWith(&'static str),
    /// The failure is only worth a warning: the run goes on.
    CarryOn,
}

/// What becomes of a run in mode `m` when step `s` fails.
pub open spec fn on_failure(m: Mode, s: Step) -> OnFailure {
    match s {
        Step::LoadState => OnFailure::StopWith("failed to read state"),
        Step::ClearShader => if m == Mode::Off {
            OnFailure::StopWith("failed to clear shader")
        } else {
            OnFailure::CarryOn
        },
        Step::CleanupShaders => if m == Mode::Off {
            OnFailure::StopWith("failed to clean up shader files")
        } else {
            OnFailure::StopWith("failed to clean up old shader files")
        },
        Step::WriteShader => OnFailure::StopWith("failed to write shader"),
        Step::SetShader => OnFailure::StopWith("failed to apply shader"),
        Step::SaveState => OnFailure::StopWith("failed to save state"),
        Step::ClearState => OnFailure::StopWith("failed to clear state"),
        _ => OnFailure::Stop,
    }
}

/// Why a run failed.
#[derive(Debug)]
pub enum Failure {
    /// An error, as it is.
    Error(FocusError),
    /// An error, under a context that says which step it stopped.
    Context { context: &'static str, cause: FocusError },
    /// `--restore` found no saved state and was given no theme to fall back on.
    NoThemeGiven,
}

/// An error followed by the I/O error it stems from, as a report of the
/// whole chain of causes reads: each of the four file errors ends with
/// `": "` and the text of the I/O error behind it.
pub open spec fn error_chain(e: FocusError) -> Seq<char> {
    match e {
        FocusError::ShaderWriteFailed { source, .. } => error_text(e) + ": "@ + source@,
        FocusError::ShaderRemoveFailed { source, .. } => error_text(e) + ": "@ + source@,
        FocusError::StateWriteFailed { source, .. } => error_text(e) + ": "@ + source@,
        FocusError::StateReadFailed { source, .. } => error_text(e) + ": "@ + source@,
        _ => error_text(e),
    }
}

fn push_error_chain(out: &mut String, e: &FocusError)
    ensures
        final(out)@ == old(out)@ + error_chain(*e),
{
    let m = e.message();
    out.append(m.as_str());
    match e {
        FocusError::ShaderWriteFailed { source, .. } | FocusError::ShaderRemoveFailed {
            source,
            ..
        } | FocusError::StateWriteFailed { source, .. } | FocusError::StateReadFailed {
            source,
            ..
        } => {
            out.append(": ");
            out.append(source.as_str());
        },
        _ => {},
    }
    assert(out@ =~= old(out)@ + error_chain(*e));
}

/// How a failed run reads, context first, then the error and its causes.
pub open spec fn failure_text(f: Failure) -> Seq<char> {
    match f {
        Failure::Error(e) => error_chain(e),
        Failure::Context { context, cause } => context@ + ": "@ + error_chain(cause),
        Failure::NoThemeGiven => "no saved state and no --theme provided"@,
    }
}

impl Failure {
    /// Returns how this failure reads, context first, as the program reports it.
    pub fn text(&self) -> (r: String)
        ensures
            r@ == failure_text(*self),
    {
        match self {
            Failure::Error(e) => {
                let mut out = String::new();
                push_error_chain(&mut out, e);
                out
            },
            Failure::Context { context, cause } => {
                let mut out = String::from_str(context);
                out.append(": ");
                push_error_chain(&mut out, cause);
                out
            },
            Failure::NoThemeGiven => String::from_str("no saved state and no --theme provided"),
        }
    }
}

/// The theme a run applies, and whether its figures come from the saved
/// state (else from the command line).
#[derive(Debug, PartialEq, Eq, Structural, Clone, Copy)]
pub struct Selection {
    pub theme: usize,
    pub from_saved: bool,
}

/// What the runner asks for next.
#[derive(Debug)]
pub enum Action {
    /// Perform this step and report how it went.
    Perform(Step),
    /// The run is over, with this outcome.
    Finish(Result<(), Failure>),
}

/// How a step went.
#[derive(Debug)]
pub enum Event {
    /// The step was done.
    Succeeded,
    /// The step failed with this error.
    Failed(FocusError),
    /// The state was loaded; it names this theme, or there was none.
    Loaded(Option<String>),
}

/// The decisions of a run in progress: its mode, the step it waits on, the
/// theme it has chosen, the theme of the command line, and whether it is over.
pub struct Runner {
    mode: Mode,
    pos: usize,
    selection: Option<Selection>,
    fallback_theme: Option<String>,
    done: bool,
}

impl Runner {
    /// The mode of the run.
    pub closed spec fn run_mode(self) -> Mode {
        self.mode
    }

    /// The position, in its mode's plan, of the step the run waits on.
    pub closed spec fn position(self) -> int {
        self.pos as int
    }

    /// The step the run waits on.
    pub closed spec fn current_step(self) -> Step {
        plan(self.mode)[self.pos as int]
    }

    /// The theme the run has chosen, if any yet.
    pub closed spec fn chosen(self) -> Option<Selection> {
        self.selection
    }

    /// The theme named on the command line, if any.
    pub closed spec fn fallback(self) -> Option<String> {
        self.fallback_theme
    }

    /// Whether the run is over.
    pub closed spec fn over(self) -> bool {
        self.done
    }

    /// A runner keeps its selection in order and, while running, waits on a
    /// step of its mode's plan.
    #[verifier::type_invariant]
    closed spec fn well_formed(self) -> bool {
        &&& selection_in_order(self)
        &&& (!self.done ==> self.pos < plan(self.mode).len())
    }

    /// Returns the mode of the run.
    pub fn mode(&self) -> (m: Mode)
        ensures
            m == self.run_mode(),
    {
        self.mode
    }

    /// Returns the theme the run has chosen, if any yet.
    pub fn selection(&self) -> (s: Option<Selection>)
        ensures
            s == self.chosen(),
            s matches Some(sel) ==> sel.theme < theme_table().len(),
    {
        proof {
            use_type_invariant(self);
        }
        self.selection
    }

    /// Returns whether the run is over.
    pub fn is_done(&self) -> (d: bool)
        ensures
            d == self.over(),
    {
        self.done
    }
}

/// The position in the table of the theme named `name`.
pub open spec fn theme_index_of(name: Seq<char>) -> int {
    choose|i: int| 0 <= i < theme_table().len() && (#[trigger] theme_table()[i]).name@ == name
}

/// The runner `r`, finished.
pub closed spec fn finished(r: Runner) -> Runner {
    Runner { done: true, ..r }
}

/// Moving on from the current step: to the next one, or to the end of the run.
pub closed spec fn proceed(r: Runner) -> (Runner, Action) {
    if r.pos + 1 < plan(r.mode).len() {
        (Runner { pos: (r.pos + 1) as usize, ..r }, Action::Perform(plan(r.mode)[r.pos + 1]))
    } else {
        (finished(r), Action::Finish(Ok(())))
    }
}

/// Choosing the theme of `--restore` once the state is loaded: the saved
/// theme when there is one, else the theme on the command line.
pub closed spec fn resolve_restore(r: Runner, saved: Option<String>) -> (Runner, Action) {
    let chosen: Option<(String, bool)> = match saved {
        Some(n) => Some((n, true)),
        None => match r.fallback_theme {
            Some(n) => Some((n, false)),
            None => None,
        },
    };
    match chosen {
        None => (finished(r), Action::Finish(Err(Failure::NoThemeGiven))),
        Some((n, from_saved)) => if is_theme_name(n@) {
            proceed(
                Runner {
                    selection: Some(
                        Selection { theme: theme_index_of(n@) as usize, from_saved },
                    ),
                    ..r
                },
            )
        } else {
            (finished(r), Action::Finish(Err(Failure::Error(FocusError::UnknownTheme(n)))))
        },
    }
}

/// Where a run in progress goes when its current step reports `e`.
pub closed spec fn next(r: Runner, e: Event) -> (Runner, Action) {
    let step = plan(r.mode)[r.pos as int];
    match e {
        Event::Failed(err) => match on_failure(r.mode, step) {
            OnFailure::Stop => (finished(r), Action::Finish(Err(Failure::Error(err)))),
            OnFailure::StopWith(c) => (
                finished(r),
                Action::Finish(Err(Failure::Context { context: c, cause: err })),
            ),
            OnFailure::CarryOn => proceed(r),
        },
        Event::Loaded(saved) => if r.mode == Mode::Restore {
            resolve_restore(r, saved)
        } else {
            proceed(r)
        },
        Event::Succeeded => proceed(r),
    }
}

/// How a run begins for request `q`.
pub closed spec fn begin(q: Request) -> (Runner, Action) {
    let m = mode_of(q);
    let r = Runner { mode: m, pos: 0, selection: None, fallback_theme: q.theme, done: false };
    if m == Mode::Apply {
        let n = q.theme.unwrap();
        if is_theme_name(n@) {
            (
                Runner {
                    selection: Some(Selection { theme: theme_index_of(n@) as usize, from_saved: false }),
                    ..r
                },
                Action::Perform(plan(m)[0]),
            )
        } else {
            (finished(r), Action::Finish(Err(Failure::Error(FocusError::UnknownTheme(n)))))
        }
    } else if plan(m).len() == 0 {
        (finished(r), Action::Finish(Ok(())))
    } else {
        (r, Action::Perform(plan(m)[0]))
    }
}

/// Whether the runner is waiting to hear how its current step went.
pub closed spec fn awaiting(r: Runner) -> bool {
    !r.done && r.pos < plan(r.mode).len()
}

/// Whether `e` is a report that step `s` can give: a loaded state for
/// `LoadState`, success or failure for the others.
pub open spec fn fits(s: Step, e: Event) -> bool {
    match e {
        Event::Loaded(_) => s == Step::LoadState,
        Event::Succeeded => s != Step::LoadState,
        Event::Failed(_) => true,
    }
}

fn mode_from(list: bool, status: bool, off: bool, restore: bool, has_theme: bool) -> (m: Mode)
    ensures
        m == (if list {
            Mode::List
        } else if status {
            Mode::Status
        } else if off {
            Mode::Off
        } else if restore {
            Mode::Restore
        } else if has_theme {
            Mode::Apply
        } else {
            Mode::Idle
        }),
{
    if list {
        Mode::List
    } else if status {
        Mode::Status
    } else if off {
        Mode::Off
    } else if restore {
        Mode::Restore
    } else if has_theme {
        Mode::Apply
    } else {
        Mode::Idle
    }
}

fn plan_len(m: Mode) -> (n: usize)
    ensures
        n == plan(m).len(),
{
    match m {
        Mode::List => 1,
        Mode::Status => 2,
        Mode::Off => 4,
        Mode::Restore => 7,
        Mode::Apply => 6,
        Mode::Idle => 0,
    }
}

fn step_at(m: Mode, i: usize) -> (s: Step)
    requires
        i < plan(m).len(),
    ensures
        s == plan(m)[i as int],
{
    match m {
        Mode::List => Step::ShowThemes,
        Mode::Status => if i == 0 {
            Step::LoadState
        } else {
            Step::ShowStatus
        },
        Mode::Off => if i == 0 {
            Step::CheckEnvironment
        } else if i == 1 {
            Step::ClearShader
        } else if i == 2 {
            Step::CleanupShaders
        } else {
            Step::ClearState
        },
        Mode::Restore => if i == 0 {
            Step::CheckEnvironment
        } else if i == 1 {
            Step::LoadState
        } else if i == 2 {
            Step::ClearShader
        } else if i == 3 {
            Step::CleanupShaders
        } else if i == 4 {
            Step::WriteShader
        } else if i == 5 {
            Step::SetShader
        } else {
            Step::SaveState
        },
        Mode::Apply => if i == 0 {
            Step::CheckEnvironment
        } else if i == 1 {
            Step::ClearShader
        } else if i == 2 {
            Step::CleanupShaders
        } else if i == 3 {
            Step::WriteShader
        } else if i == 4 {
            Step::SetShader
        } else {
            Step::SaveState
        },
        Mode::Idle => Step::ShowThemes,
    }
}

fn lookup(name: &str) -> (r: Option<usize>)
    ensures
        is_theme_name(name@) ==> r == Some(theme_index_of(name@) as usize),
        !is_theme_name(name@) ==> r is None,
        r matches Some(i) ==> i < theme_table().len(),
{
    let r = find_theme_index(name);
    proof {
        theme_names_are_distinct();
        if let Some(i) = r {
            let j = theme_index_of(name@);
            assert(theme_table()[i as int].name@ == name@);
            assert(0 <= j < theme_table().len() && theme_table()[j].name@ == name@);
            if i as int != j {
                if i < j {
                    assert(theme_table()[i as int].name@ != theme_table()[j].name@);
                } else {
                    assert(theme_table()[j].name@ != theme_table()[i as int].name@);
                }
            }
        }
    }
    r
}

impl Runner {
    /// Begins a run for the request: chooses its mode, looks up the theme of
    /// `--theme` first of all, and asks for the first step.
    pub fn start(q: Request) -> (res: (Runner, Action))
        ensures
            res == begin(q),
            res.0.run_mode() == mode_of(q),
            res.1 matches Action::Perform(s) ==> !res.0.over() && awaiting(res.0)
                && res.0.current_step() == s,
            res.1 matches Action::Finish(_) ==> res.0.over(),
    {
        let m = mode_from(q.list, q.status, q.off, q.restore, q.theme.is_some());
        assert(m == mode_of(q));
        let n = plan_len(m);
        match m {
            Mode::Apply => {
                let chosen = match &q.theme {
                    Some(t) => lookup(t.as_str()),
                    None => None,
                };
                match chosen {
                    Some(i) => {
                        let r = Runner {
                            mode: m,
                            pos: 0,
                            selection: Some(Selection { theme: i, from_saved: false }),
                            fallback_theme: q.theme,
                            done: false,
                        };
                        (r, Action::Perform(step_at(m, 0)))
                    },
                    None => {
                        let name = match &q.theme {
                            Some(t) => t.clone(),
                            None => String::new(),
                        };
                        let r = Runner {
                            mode: m,
                            pos: 0,
                            selection: None,
                            fallback_theme: q.theme,
                            done: true,
                        };
                        (r, Action::Finish(Err(Failure::Error(FocusError::UnknownTheme(name)))))
                    },
                }
            },
            _ => {
                let done = n == 0;
                let r = Runner { mode: m, pos: 0, selection: None, fallback_theme: q.theme, done };
                if n == 0 {
                    (r, Action::Finish(Ok(())))
                } else {
                    (r, Action::Perform(step_at(m, 0)))
                }
            },
        }
    }

    fn proceed(&mut self) -> (a: Action)
        requires
            awaiting(*old(self)),
            old(self).mode == Mode::Restore && old(self).pos >= 1 ==> old(self).selection is Some,
        ensures
            (*final(self), a) == proceed(*old(self)),
    {
        proof {
            use_type_invariant(&*self);
        }
        let n = plan_len(self.mode);
        if self.pos + 1 < n {
            self.pos = self.pos + 1;
            Action::Perform(step_at(self.mode, self.pos))
        } else {
            self.done = true;
            Action::Finish(Ok(()))
        }
    }

    /// Takes the report of the current step and says what comes next.
    pub fn advance(&mut self, e: Event) -> (a: Action)
        requires
            !old(self).over(),
            fits(old(self).current_step(), e),
        ensures
            (*final(self), a) == next(*old(self), e),
            final(self).run_mode() == old(self).run_mode(),
            a matches Action::Perform(s) ==> !final(self).over() && awaiting(*final(self))
                && final(self).current_step() == s,
            a matches Action::Perform(s) ==> (s == Step::WriteShader || s == Step::SetShader || s
                == Step::SaveState ==> final(self).chosen() is Some),
            a matches Action::Finish(_) ==> final(self).over(),
    {
        proof {
            use_type_invariant(&*self);
        }
        let step = step_at(self.mode, self.pos);
        match e {
            Event::Failed(err) => {
                match step {
                    Step::ClearShader => {
                        if self.mode == Mode::Off {
                            self.done = true;
                            Action::Finish(
                                Err(Failure::Context { context: "failed to clear shader", cause: err }),
                            )
                        } else {
                            self.proceed()
                        }
                    },
                    Step::LoadState => {
                        self.done = true;
                        Action::Finish(Err(Failure::Context { context: "failed to read state", cause: err }))
                    },
                    Step::CleanupShaders => {
                        self.done = true;
                        let context = if self.mode == Mode::Off {
                            "failed to clean up shader files"
                        } else {
                            "failed to clean up old shader files"
                        };
                        Action::Finish(Err(Failure::Context { context, cause: err }))
                    },
                    Step::WriteShader => {
                        self.done = true;
                        Action::Finish(Err(Failure::Context { context: "failed to write shader", cause: err }))
                    },
                    Step::SetShader => {
                        self.done = true;
                        Action::Finish(Err(Failure::Context { context: "failed to apply shader", cause: err }))
                    },
                    Step::SaveState => {
                        self.done = true;
                        Action::Finish(Err(Failure::Context { context: "failed to save state", cause: err }))
                    },
                    Step::ClearState => {
                        self.done = true;
                        Action::Finish(Err(Failure::Context { context: "failed to clear state", cause: err }))
                    },
                    _ => {
                        self.done = true;
                        Action::Finish(Err(Failure::Error(err)))
                    },
                }
            },
            Event::Loaded(saved) => {
                if self.mode == Mode::Restore {
                    let chosen: Option<(String, bool)> = match saved {
                        Some(n) => Some((n, true)),
                        None => match &self.fallback_theme {
                            Some(n) => Some((n.clone(), false)),
                            None => None,
                        },
                    };
                    match chosen {
                        None => {
                            self.done = true;
                            Action::Finish(Err(Failure::NoThemeGiven))
                        },
                        Some((n, from_saved)) => {
                            match lookup(n.as_str()) {
                                Some(i) => {
                                    self.selection = Some(Selection { theme: i, from_saved });
                                    self.proceed()
                                },
                                None => {
                                    self.done = true;
                                    Action::Finish(Err(Failure::Error(FocusError::UnknownTheme(n))))
                                },
                            }
                        },
                    }
                } else {
                    self.proceed()
                }
            },
            Event::Succeeded => self.proceed(),
        }
    }
}

/// Whether the runner's selection is in order: a run that applies a theme
/// has chosen it by the time it clears the old shader, and a chosen theme is
/// one of the table's.
pub closed spec fn selection_in_order(r: Runner) -> bool {
    &&& (r.mode == Mode::Apply && !r.done ==> r.selection is Some)
    &&& (r.mode == Mode::Restore && r.pos >= 2 && !r.done ==> r.selection is Some)
    &&& (r.selection matches Some(sel) ==> sel.theme < theme_table().len())
}

proof fn theme_index_in_table(name: Seq<char>)
    requires
        is_theme_name(name),
    ensures
        0 <= theme_index_of(name) < theme_table().len(),
        theme_table()[theme_index_of(name)].name@ == name,
{
}

/// A run begins with its selection in order, and every report keeps it so.
pub proof fn selection_stays_in_order(q: Request, r: Runner, e: Event)
    ensures
        selection_in_order(begin(q).0),
        selection_in_order(r) && awaiting(r) && fits(r.current_step(), e) ==> selection_in_order(
            next(r, e).0,
        ),
{
    if mode_of(q) == Mode::Apply && is_theme_name(q.theme.unwrap()@) {
        theme_index_in_table(q.theme.unwrap()@);
    }
    if selection_in_order(r) && awaiting(r) && fits(r.current_step(), e) {
        if let Event::Loaded(saved) = e {
            if r.mode == Mode::Restore {
                match saved {
                    Some(n) => if is_theme_name(n@) {
                        theme_index_in_table(n@);
                    },
                    None => match r.fallback_theme {
                        Some(n) => if is_theme_name(n@) {
                            theme_index_in_table(n@);
                        },
                        None => {},
                    },
                }
            }
        }
    }
}

/// Every report moves a run on by exactly one step, or ends it: a run ends
/// after at most as many reports as its mode has steps.
pub proof fn runs_make_progress(r: Runner, e: Event)
    requires
        awaiting(r),
    ensures
        next(r, e).0.over() || (next(r, e).0.position() == r.position() + 1 && awaiting(
            next(r, e).0,
        )),
        next(r, e).0.run_mode() == r.run_mode(),
{
}

/// `--theme` with a name that is not a built-in theme's ends the run with
/// `UnknownTheme` before anything is done, Hyprland included.
pub proof fn unknown_theme_ends_run_at_once(q: Request)
    requires
        mode_of(q) == Mode::Apply,
        !is_theme_name(q.theme.unwrap()@),
    ensures
        begin(q).0.over(),
        begin(q).1 == Action::Finish(
            Err::<(), Failure>(Failure::Error(FocusError::UnknownTheme(q.theme.unwrap()))),
        ),
{
}

/// When Hyprland's environment is found wanting, the run ends with that
/// error, as it is, and does nothing more.
pub proof fn environment_failure_ends_run(r: Runner, e: FocusError)
    requires
        awaiting(r),
        r.current_step() == Step::CheckEnvironment,
    ensures
        next(r, Event::Failed(e)) == (
            finished(r),
            Action::Finish(Err::<(), Failure>(Failure::Error(e))),
        ),
{
}

/// The only failure a run survives is that of clearing the previous shader
/// before a theme is applied; every other failure of a step ends the run.
pub proof fn only_clearing_the_old_shader_is_tolerated(m: Mode, s: Step)
    requires
        plan(m).contains(s),
    ensures
        (on_failure(m, s) is CarryOn) <==> (s == Step::ClearShader && (m == Mode::Restore || m
            == Mode::Apply)),
{
    let i = choose|i: int| 0 <= i < plan(m).len() && plan(m)[i] == s;
    assert(plan(m)[i] == s);
}

/// A shader is applied only right after it was written successfully.
pub proof fn shader_applied_only_after_written(r: Runner, e: Event)
    requires
        awaiting(r),
        fits(r.current_step(), e),
    ensures
        next(r, e).1 == Action::Perform(Step::SetShader) ==> r.current_step() == Step::WriteShader
            && e is Succeeded,
{
}

/// `--list` and `--status` leave Hyprland, the shader files and the state
/// file alone.
pub proof fn listing_and_status_change_nothing(m: Mode, i: int)
    requires
        m == Mode::List || m == Mode::Status,
        0 <= i < plan(m).len(),
    ensures
        plan(m)[i] == Step::ShowThemes || plan(m)[i] == Step::LoadState || plan(m)[i]
            == Step::ShowStatus,
{
}

/// Applying a theme ends by writing the shader, applying it, and then
/// saving the state; turning the overlay off ends by clearing the state.
pub proof fn runs_end_with_their_effect()
    ensures
        plan(Mode::Apply).subrange(3, 6) == seq![Step::WriteShader, Step::SetShader, Step::SaveState],
        plan(Mode::Restore).subrange(4, 7) == seq![Step::WriteShader, Step::SetShader, Step::SaveState],
        plan(Mode::Off).last() == Step::ClearState,
{
    assert(plan(Mode::Apply).subrange(3, 6) =~= seq![Step::WriteShader, Step::SetShader, Step::SaveState]);
    assert(plan(Mode::Restore).subrange(4, 7) =~= seq![Step::WriteShader, Step::SetShader, Step::SaveState]);
}

/// `--restore` applies the saved theme when there is one, with the saved
/// figures, whatever theme the command line names.
pub proof fn saved_state_comes_first(r: Runner, n: String)
    requires
        awaiting(r),
        r.run_mode() == Mode::Restore,
        r.current_step() == Step::LoadState,
        is_theme_name(n@),
    ensures
        next(r, Event::Loaded(Some(n))).0.chosen() == Some(
            Selection { theme: theme_index_of(n@) as usize, from_saved: true },
        ),
        next(r, Event::Loaded(Some(n))).1 == Action::Perform(Step::ClearShader),
{
}

/// With no saved state, `--restore` falls back on the theme and figures of
/// the command line, and fails when it names no theme.
pub proof fn command_line_is_the_fallback(r: Runner)
    requires
        awaiting(r),
        r.run_mode() == Mode::Restore,
        r.current_step() == Step::LoadState,
    ensures
        r.fallback() matches Some(n) ==> (is_theme_name(n@) ==> next(
            r,
            Event::Loaded(None),
        ).0.chosen() == Some(Selection { theme: theme_index_of(n@) as usize, from_saved: false })),
        r.fallback() is None ==> next(r, Event::Loaded(None)).1 == Action::Finish(
            Err::<(), Failure>(Failure::NoThemeGiven),
        ),
{
}

/// A run of `--list` or `--status` only ever asks to print the themes, load
/// the state or print the status: it runs no `hyprctl` command and creates or
/// removes no file. `--list` wins over everything else on the command line,
/// and `--status` over everything but `--list`.
pub proof fn listing_and_status_runs_change_nothing(q: Request, r: Runner)
    ensures
        q.list ==> mode_of(q) == Mode::List,
        !q.list && q.status ==> mode_of(q) == Mode::Status,
        awaiting(r) && r.run_mode() == Mode::List ==> r.current_step() == Step::ShowThemes,
        awaiting(r) && r.run_mode() == Mode::Status ==> (r.current_step() == Step::LoadState
            || r.current_step() == Step::ShowStatus),
{
    if awaiting(r) && (r.run_mode() == Mode::List || r.run_mode() == Mode::Status) {
        listing_and_status_change_nothing(r.mode, r.pos as int);
    }
}

/// `--theme NAME` with a built-in theme's name chooses exactly that theme,
/// with the figures of the command line, and goes on to check Hyprland.
pub proof fn applied_theme_is_the_named_one(q: Request)
    requires
        mode_of(q) == Mode::Apply,
        is_theme_name(q.theme.unwrap()@),
    ensures
        !begin(q).0.over(),
        begin(q).1 == Action::Perform(Step::CheckEnvironment),
        begin(q).0.chosen() is Some,
        begin(q).0.chosen().unwrap().theme < theme_table().len(),
        theme_table()[begin(q).0.chosen().unwrap().theme as int].name@ == q.theme.unwrap()@,
        !begin(q).0.chosen().unwrap().from_saved,
{
    theme_index_in_table(q.theme.unwrap()@);
}

/// Once `--restore` has loaded the state, it chooses exactly the theme the
/// saved state names, or, with nothing saved, the theme of the command line;
/// it takes the figures from where the name came from, and goes on to clear
/// the old shader.
pub proof fn restored_theme_is_the_named_one(r: Runner, saved: Option<String>)
    requires
        awaiting(r),
        r.run_mode() == Mode::Restore,
        r.current_step() == Step::LoadState,
    ensures
        ({
            let name = match saved {
                Some(n) => Some(n),
                None => r.fallback(),
            };
            name matches Some(n) ==> (is_theme_name(n@) ==> {
                &&& next(r, Event::Loaded(saved)).1 == Action::Perform(Step::ClearShader)
                &&& next(r, Event::Loaded(saved)).0.chosen() is Some
                &&& next(r, Event::Loaded(saved)).0.chosen().unwrap().theme < theme_table().len()
                &&& theme_table()[next(r, Event::Loaded(saved)).0.chosen().unwrap().theme as int].name@
                    == n@
                &&& next(r, Event::Loaded(saved)).0.chosen().unwrap().from_saved == (saved is Some)
            })
        }),
{
    match saved {
        Some(n) => if is_theme_name(n@) {
            theme_index_in_table(n@);
        },
        None => match r.fallback_theme {
            Some(n) => if is_theme_name(n@) {
                theme_index_in_table(n@);
            },
            None => {},
        },
    }
}

/// A report that a step was done (or, outside `--restore`, that the state
/// was loaded) moves the run on to the next step of its mode's plan, and
/// ends it well only after the last one.
pub proof fn done_steps_move_on(r: Runner, e: Event)
    requires
        awaiting(r),
        fits(r.current_step(), e),
        e is Succeeded || (e is Loaded && r.run_mode() != Mode::Restore),
    ensures
        r.position() + 1 < plan(r.run_mode()).len() ==> next(r, e).1 == Action::Perform(
            plan(r.run_mode())[r.position() + 1],
        ) && next(r, e).0.position() == r.position() + 1 && !next(r, e).0.over(),
        r.position() + 1 == plan(r.run_mode()).len() ==> next(r, e).1 == Action::Finish(
            Ok::<(), Failure>(()),
        ) && next(r, e).0.over(),
{
}

/// A run ends well only after being asked for the last step of its plan,
/// and otherwise asks for the steps of its plan one after the other: a run
/// that applies a theme finishes well only once it has saved the state, after
/// writing and applying the shader.
pub proof fn runs_end_well_only_after_their_last_step(r: Runner, e: Event)
    requires
        awaiting(r),
        fits(r.current_step(), e),
    ensures
        next(r, e).1 matches Action::Finish(Ok(_)) ==> r.position() == plan(r.run_mode()).len()
            - 1,
        next(r, e).1 matches Action::Finish(Ok(_)) && (r.run_mode() == Mode::Apply || r.run_mode()
            == Mode::Restore) ==> r.current_step() == Step::SaveState,
        next(r, e).1 matches Action::Perform(s) ==> next(r, e).0.position() == r.position() + 1
            && s == plan(r.run_mode())[r.position() + 1],
{
}

/// `--status` prints the status once the state is loaded, whatever it holds.
pub proof fn status_is_shown_after_loading(r: Runner, saved: Option<String>)
    requires
        awaiting(r),
        r.run_mode() == Mode::Status,
        r.current_step() == Step::LoadState,
    ensures
        next(r, Event::Loaded(saved)).1 == Action::Perform(Step::ShowStatus),
{
}

/// Every failure of a step ends the run with an error caused by it, except a
/// failure to clear the previous shader while applying a theme, which the run
/// goes past.
pub proof fn failures_end_runs(r: Runner, e: FocusError)
    requires
        awaiting(r),
    ensures
        !(r.current_step() == Step::ClearShader && (r.run_mode() == Mode::Apply || r.run_mode()
            == Mode::Restore)) ==> {
            &&& next(r, Event::Failed(e)).0.over()
            &&& next(r, Event::Failed(e)).1 matches Action::Finish(Err(f))
            &&& (f == Failure::Error(e) || (f matches Failure::Context { cause, .. } && cause == e))
        },
        r.current_step() == Step::ClearShader && (r.run_mode() == Mode::Apply || r.run_mode()
            == Mode::Restore) ==> next(r, Event::Failed(e)).1 == Action::Perform(
            Step::CleanupShaders,
        ),
        r.run_mode() == Mode::Off && r.current_step() == Step::ClearState ==> next(
            r,
            Event::Failed(e),
        ).1 == Action::Finish(
            Err::<(), Failure>(Failure::Context { context: "failed to clear state", cause: e }),
        ),
{
}

/// The command line chooses the mode in this order: `--list`, `--status`,
/// `--off`, `--restore`, a theme; with none of them the run does nothing.
pub proof fn command_line_chooses_the_mode(q: Request)
    ensures
        q.list ==> mode_of(q) == Mode::List,
        !q.list && q.status ==> mode_of(q) == Mode::Status,
        !q.list && !q.status && q.off ==> mode_of(q) == Mode::Off,
        !q.list && !q.status && !q.off && q.restore ==> mode_of(q) == Mode::Restore,
        !q.list && !q.status && !q.off && !q.restore && q.theme is Some ==> mode_of(q)
            == Mode::Apply,
        !q.list && !q.status && !q.off && !q.restore && q.theme is None ==> mode_of(q)
            == Mode::Idle,
{
}

/// A run begins by asking for the first step of its plan (after the theme
/// lookup of `--theme`), and a run with nothing to do ends well at once.
pub proof fn runs_begin_with_their_first_step(q: Request)
    ensures
        begin(q).0.run_mode() == mode_of(q),
        mode_of(q) != Mode::Apply && plan(mode_of(q)).len() > 0 ==> begin(q).1 == Action::Perform(
            plan(mode_of(q))[0],
        ) && begin(q).0.position() == 0,
        mode_of(q) == Mode::Idle ==> begin(q).1 == Action::Finish(Ok::<(), Failure>(())),
{
}

} // verus!
