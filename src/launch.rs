use vstd::prelude::*;

verus! {

/// Everything one launch needs: where the executable is, the three argument
/// sets, the environment, and the optional pre-launch command.
#[derive(Clone, Debug)]
pub struct LaunchData {
    pub game_id: String,
    pub game_directory: String,
    pub game_executable: String,
    pub working_directory: String,
    pub game_parameters: Vec<String>,
    pub user_parameters: Vec<String>,
    pub egl_parameters: Vec<String>,
    pub environment: Vec<(String, String)>,
    pub pre_launch_command: String,
    pub pre_launch_wait: bool,
}

/// Why a launch attempt failed.
#[derive(Clone, Debug, PartialEq, Eq)]
pub enum LaunchError {
    /// The pre-launch command could not be split into words.
    InvalidCommand,
    /// The OS refused to start the pre-launch command.
    PreLaunchSpawn(String),
    /// The pre-launch command ended with a nonzero or unknown exit code.
    PreLaunchExited(Option<i32>),
    /// The pre-launch command reported an error while it ran.
    PreLaunchError(String),
    /// The executable path does not exist; it carries the path.
    ExecutableNotFound(String),
    /// The OS refused to start the executable.
    Spawn(String),
}

/// The pre-launch command, split into a program and its arguments.
#[derive(Clone, Debug, PartialEq, Eq)]
pub struct PreLaunchPlan {
    pub program: String,
    pub args: Vec<String>,
}

/// The character sequences of a list of strings.
pub open spec fn views(v: Seq<String>) -> Seq<Seq<char>> {
    v.map_values(|w: String| w@)
}

/// The words of `s` under shell word splitting, or `None` where its quoting is
/// malformed.
pub uninterp spec fn shell_words_of(s: Seq<char>) -> Option<Seq<Seq<char>>>;

/// Relies on shlex::split: shell word splitting that respects quotes and
/// escapes, `None` on unbalanced quoting or a trailing escape; an empty input
/// has no words.
#[verifier::external_body]
fn shell_split(s: &String) -> (r: Option<Vec<String>>)
    ensures
        r is None <==> shell_words_of(s@) is None,
        r is Some ==> views(r->0@) == shell_words_of(s@)->0,
        s@.len() == 0 ==> r is Some && r->0@.len() == 0,
{
    shlex::split(s)
}

/// `r` is what a pre-launch command with the given words amounts to: no words
/// at all is an error, an empty list is nothing to run, and otherwise the
/// first word is the program and the rest its arguments.
pub open spec fn plan_matches(r: Result<Option<PreLaunchPlan>, LaunchError>, words: Option<Seq<Seq<char>>>) -> bool {
    match words {
        None => r == Err::<Option<PreLaunchPlan>, LaunchError>(LaunchError::InvalidCommand),
        Some(w) => r is Ok && (w.len() == 0 <==> r->Ok_0 is None) && (w.len() > 0 ==> {
            let p = r->Ok_0->0;
            p.program@ == w[0] && views(p.args@) == w.drop_first()
        }),
    }
}

/// Turns the words of a pre-launch command into what is to be run.
pub fn plan_from_words(words: Option<Vec<String>>) -> (r: Result<Option<PreLaunchPlan>, LaunchError>)
    ensures
        plan_matches(r, match words { None => None, Some(w) => Some(views(w@)) }),
{
    match words {
        None => Err(LaunchError::InvalidCommand),
        Some(mut w) => {
            if w.len() == 0 {
                return Ok(None);
            }
            let ghost w0 = w@;
            let program = w.remove(0);
            assert(w@ =~= w0.drop_first());
            assert(views(w@) =~= views(w0).drop_first());
            Ok(Some(PreLaunchPlan { program, args: w }))
        },
    }
}

/// Splits a pre-launch command into what is to be run.
pub fn plan_pre_launch(command: &String) -> (r: Result<Option<PreLaunchPlan>, LaunchError>)
    ensures
        plan_matches(r, shell_words_of(command@)),
{
    let words = shell_split(command);
    plan_from_words(words)
}

/// The arguments of the main executable: game parameters, then user
/// parameters, then engine parameters, each set in its own order.
pub fn assemble_args(game: &Vec<String>, user: &Vec<String>, engine: &Vec<String>) -> (r: Vec<String>)
    ensures
        r@ == game@ + user@ + engine@,
{
    let mut out: Vec<String> = Vec::new();
    let mut i: usize = 0;
    while i < game.len()
        invariant
            i <= game@.len(),
            out@ == game@.subrange(0, i as int),
        decreases game@.len() - i,
    {
        out.push(game[i].clone());
        i = i + 1;
        assert(out@ =~= game@.subrange(0, i as int));
    }
    assert(game@.subrange(0, i as int) =~= game@);
    let mut i: usize = 0;
    while i < user.len()
        invariant
            i <= user@.len(),
            out@ == game@ + user@.subrange(0, i as int),
        decreases user@.len() - i,
    {
        out.push(user[i].clone());
        i = i + 1;
        assert(out@ =~= game@ + user@.subrange(0, i as int));
    }
    assert(user@.subrange(0, i as int) =~= user@);
    let mut i: usize = 0;
    while i < engine.len()
        invariant
            i <= engine@.len(),
            out@ == game@ + user@ + engine@.subrange(0, i as int),
        decreases engine@.len() - i,
    {
        out.push(engine[i].clone());
        i = i + 1;
        assert(out@ =~= game@ + user@ + engine@.subrange(0, i as int));
    }
    assert(engine@.subrange(0, i as int) =~= engine@);
    out
}

/// The working directory to apply: `dir` when it is non-empty and exists,
/// otherwise none, so the default directory is kept.
pub fn working_dir(dir: &String, exists: bool) -> (r: Option<String>)
    ensures
        r is Some <==> dir@.len() > 0 && exists,
        r is Some ==> r->0@ == dir@,
{
    if dir.as_str().is_empty() || !exists {
        None
    } else {
        Some(dir.clone())
    }
}


/// An event that a running child process reports.
#[derive(Clone, Debug, PartialEq, Eq)]
pub enum ShellEvent {
    Stdout(Vec<u8>),
    Stderr(Vec<u8>),
    Error(String),
    Terminated(Option<i32>),
}

/// Where one launch attempt stands. `PreLaunchFailed`, `LaunchFailed` and
/// `Running` are terminal.
#[derive(Clone, Debug, PartialEq, Eq)]
pub enum LaunchPhase {
    Idle,
    /// The executable path is being checked; the pre-launch command waits
    /// for that check.
    Validating(PreLaunchPlan),
    PreLaunchRunning,
    /// Heading for the main executable; `checked` once its path was found.
    MainLaunching { checked: bool },
    Running(u32),
    PreLaunchFailed(LaunchError),
    LaunchFailed(LaunchError),
}

/// What the outside world reports back to a launch attempt.
#[derive(Debug, PartialEq, Eq)]
pub enum LaunchEvent {
    /// The pre-launch command was started, or the OS refused it.
    PreLaunchSpawned(Result<(), String>),
    /// The waited-on pre-launch command reported an event.
    PreLaunchOutput(ShellEvent),
    /// The waited-on pre-launch command's event channel closed.
    PreLaunchClosed,
    /// Whether the executable path exists.
    ExecutableChecked { path: String, exists: bool },
    /// The main executable was started with this process id, or refused.
    MainSpawned(Result<u32, String>),
}

/// What the caller has to do next for a launch attempt.
#[derive(Clone, Debug)]
pub enum LaunchAction {
    SpawnPreLaunch(PreLaunchPlan),
    AwaitPreLaunch,
    CheckExecutable,
    SpawnMain,
    /// Hand the process to the registry and announce it as running.
    Track(u32),
    /// The attempt failed; the phase carries the error.
    Abort,
    /// The event does not apply to this phase.
    Ignore,
}

/// First step of a launch: the executable path is always checked first.
/// Malformed quoting of the pre-launch command fails at once; a command of
/// words is kept, to be started once the path was found.
pub open spec fn begin_matches(r: (LaunchPhase, LaunchAction), command: Seq<char>) -> bool {
    let to_main = r.0 == LaunchPhase::MainLaunching { checked: false } && r.1 is CheckExecutable;
    if command.len() == 0 {
        to_main
    } else {
        match shell_words_of(command) {
            None => r.0 == LaunchPhase::PreLaunchFailed(LaunchError::InvalidCommand) && r.1 is Abort,
            Some(w) => if w.len() == 0 {
                to_main
            } else {
                &&& r.0 matches LaunchPhase::Validating(p)
                &&& r.1 is CheckExecutable
                &&& p.program@ == w[0]
                &&& views(p.args@) == w.drop_first()
            },
        }
    }
}

/// Starts a launch attempt for `data`. Nothing is spawned at this step.
pub fn begin(data: &LaunchData) -> (r: (LaunchPhase, LaunchAction))
    ensures
        begin_matches(r, data.pre_launch_command@),
        r.1 is CheckExecutable || r.1 is Abort,
{
    if data.pre_launch_command.as_str().is_empty() {
        return (LaunchPhase::MainLaunching { checked: false }, LaunchAction::CheckExecutable);
    }
    match plan_pre_launch(&data.pre_launch_command) {
        Err(e) => (LaunchPhase::PreLaunchFailed(e), LaunchAction::Abort),
        Ok(None) => (LaunchPhase::MainLaunching { checked: false }, LaunchAction::CheckExecutable),
        Ok(Some(p)) => (LaunchPhase::Validating(p), LaunchAction::CheckExecutable),
    }
}

/// The transition table of a launch attempt. The executable path is checked
/// before anything is spawned. In wait mode the pre-launch command must
/// terminate with exit code 0 before the main executable is spawned; any
/// other code, a missing one, an error event, or an event channel that
/// closes first fails the attempt.
pub open spec fn next_step(phase: LaunchPhase, event: LaunchEvent, wait: bool) -> (LaunchPhase, LaunchAction) {
    let to_main = (LaunchPhase::MainLaunching { checked: true }, LaunchAction::SpawnMain);
    match (phase, event) {
        (LaunchPhase::Validating(p), LaunchEvent::ExecutableChecked { path, exists }) =>
            if exists {
                (LaunchPhase::PreLaunchRunning, LaunchAction::SpawnPreLaunch(p))
            } else {
                (LaunchPhase::LaunchFailed(LaunchError::ExecutableNotFound(path)), LaunchAction::Abort)
            },
        (LaunchPhase::PreLaunchRunning, LaunchEvent::PreLaunchSpawned(Err(e))) =>
            (LaunchPhase::PreLaunchFailed(LaunchError::PreLaunchSpawn(e)), LaunchAction::Abort),
        (LaunchPhase::PreLaunchRunning, LaunchEvent::PreLaunchSpawned(Ok(_))) =>
            if wait { (LaunchPhase::PreLaunchRunning, LaunchAction::AwaitPreLaunch) } else { to_main },
        (LaunchPhase::PreLaunchRunning, LaunchEvent::PreLaunchOutput(ShellEvent::Terminated(code))) =>
            if code == Some(0i32) {
                to_main
            } else {
                (LaunchPhase::PreLaunchFailed(LaunchError::PreLaunchExited(code)), LaunchAction::Abort)
            },
        (LaunchPhase::PreLaunchRunning, LaunchEvent::PreLaunchOutput(ShellEvent::Error(e))) =>
            (LaunchPhase::PreLaunchFailed(LaunchError::PreLaunchError(e)), LaunchAction::Abort),
        (LaunchPhase::PreLaunchRunning, LaunchEvent::PreLaunchOutput(_)) =>
            (LaunchPhase::PreLaunchRunning, LaunchAction::AwaitPreLaunch),
        (LaunchPhase::PreLaunchRunning, LaunchEvent::PreLaunchClosed) =>
            (LaunchPhase::PreLaunchFailed(LaunchError::PreLaunchExited(None)), LaunchAction::Abort),
        (LaunchPhase::MainLaunching { checked: false }, LaunchEvent::ExecutableChecked { path, exists }) =>
            if exists {
                (LaunchPhase::MainLaunching { checked: true }, LaunchAction::SpawnMain)
            } else {
                (LaunchPhase::LaunchFailed(LaunchError::ExecutableNotFound(path)), LaunchAction::Abort)
            },
        (LaunchPhase::MainLaunching { checked: true }, LaunchEvent::MainSpawned(Ok(pid))) =>
            (LaunchPhase::Running(pid), LaunchAction::Track(pid)),
        (LaunchPhase::MainLaunching { checked: true }, LaunchEvent::MainSpawned(Err(e))) =>
            (LaunchPhase::LaunchFailed(LaunchError::Spawn(e)), LaunchAction::Abort),
        (p, _) => (p, LaunchAction::Ignore),
    }
}

/// The phases reached only after the executable path was found.
pub open spec fn path_found(phase: LaunchPhase) -> bool {
    phase is PreLaunchRunning || phase == (LaunchPhase::MainLaunching { checked: true }) || phase is Running
}

/// Advances a launch attempt by one reported event; `wait` says whether the
/// pre-launch command is waited on.
pub fn advance(phase: LaunchPhase, event: LaunchEvent, wait: bool) -> (r: (LaunchPhase, LaunchAction))
    ensures
        r == next_step(phase, event, wait),
        r.1 is SpawnPreLaunch ==> phase is Validating && event is ExecutableChecked && event->exists,
        r.1 is SpawnMain ==> path_found(phase) || (event is ExecutableChecked && event->exists),
        path_found(r.0) ==> path_found(phase) || (event is ExecutableChecked && event->exists),
        r.1 is Track ==> phase == (LaunchPhase::MainLaunching { checked: true }) && event is MainSpawned,
        event is ExecutableChecked && !event->exists && (phase is Validating || phase == (LaunchPhase::MainLaunching { checked: false }))
            ==> r.0 == LaunchPhase::LaunchFailed(LaunchError::ExecutableNotFound(event->path)) && r.1 is Abort,
        wait && phase is PreLaunchRunning && r.0 is MainLaunching
            ==> event == LaunchEvent::PreLaunchOutput(ShellEvent::Terminated(Some(0i32))),
{
    match (phase, event) {
        (LaunchPhase::Validating(p), LaunchEvent::ExecutableChecked { path, exists }) =>
            if exists {
                (LaunchPhase::PreLaunchRunning, LaunchAction::SpawnPreLaunch(p))
            } else {
                (LaunchPhase::LaunchFailed(LaunchError::ExecutableNotFound(path)), LaunchAction::Abort)
            },
        (LaunchPhase::PreLaunchRunning, LaunchEvent::PreLaunchSpawned(Err(e))) =>
            (LaunchPhase::PreLaunchFailed(LaunchError::PreLaunchSpawn(e)), LaunchAction::Abort),
        (LaunchPhase::PreLaunchRunning, LaunchEvent::PreLaunchSpawned(Ok(_))) =>
            if wait {
                (LaunchPhase::PreLaunchRunning, LaunchAction::AwaitPreLaunch)
            } else {
                (LaunchPhase::MainLaunching { checked: true }, LaunchAction::SpawnMain)
            },
        (LaunchPhase::PreLaunchRunning, LaunchEvent::PreLaunchOutput(ShellEvent::Terminated(code))) =>
            match code {
                Some(0) => (LaunchPhase::MainLaunching { checked: true }, LaunchAction::SpawnMain),
                _ => (LaunchPhase::PreLaunchFailed(LaunchError::PreLaunchExited(code)), LaunchAction::Abort),
            },
        (LaunchPhase::PreLaunchRunning, LaunchEvent::PreLaunchOutput(ShellEvent::Error(e))) =>
            (LaunchPhase::PreLaunchFailed(LaunchError::PreLaunchError(e)), LaunchAction::Abort),
        (LaunchPhase::PreLaunchRunning, LaunchEvent::PreLaunchOutput(_)) =>
            (LaunchPhase::PreLaunchRunning, LaunchAction::AwaitPreLaunch),
        (LaunchPhase::PreLaunchRunning, LaunchEvent::PreLaunchClosed) =>
            (LaunchPhase::PreLaunchFailed(LaunchError::PreLaunchExited(None)), LaunchAction::Abort),
        (LaunchPhase::MainLaunching { checked: false }, LaunchEvent::ExecutableChecked { path, exists }) =>
            if exists {
                (LaunchPhase::MainLaunching { checked: true }, LaunchAction::SpawnMain)
            } else {
                (LaunchPhase::LaunchFailed(LaunchError::ExecutableNotFound(path)), LaunchAction::Abort)
            },
        (LaunchPhase::MainLaunching { checked: true }, LaunchEvent::MainSpawned(Ok(pid))) =>
            (LaunchPhase::Running(pid), LaunchAction::Track(pid)),
        (LaunchPhase::MainLaunching { checked: true }, LaunchEvent::MainSpawned(Err(e))) =>
            (LaunchPhase::LaunchFailed(LaunchError::Spawn(e)), LaunchAction::Abort),
        (p, _) => (p, LaunchAction::Ignore),
    }
}

} // verus!
