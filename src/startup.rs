use vstd::prelude::*;

verus! {

/// Why startup was abandoned.
#[derive(Clone, Copy, Debug, PartialEq, Eq, Structural)]
pub enum StartupError {
    /// No helper binary was found for the running platform.
    Resolution,
    /// The operating system refused to create the helper process.
    Spawn,
    /// A plugin of the application failed to initialise.
    PluginInit,
}


/// Where the startup sequence stands.
#[derive(Clone, Copy, Debug, PartialEq, Eq, Structural)]
pub enum Phase {
    /// The helper binary for this platform is being located.
    Resolving,
    /// The helper process is being created.
    Spawning,
    /// The diagnostic logger is being registered (debug builds only).
    RegisteringLogger,
    /// Setup is complete: the application goes on to show its window.
    Ready,
    /// Startup was abandoned; the application does not launch.
    Failed(StartupError),
}

/// What the application reports back after performing an action, or what
/// the helper process did meanwhile.
#[derive(Clone, Copy, Debug, PartialEq, Eq, Structural)]
pub enum Event {
    /// The helper binary was found.
    Resolved,
    /// No helper binary exists for this platform.
    ResolutionFailed,
    /// The helper process was created with this process identifier.
    Spawned(u32),
    /// The operating system refused to create the helper process.
    SpawnFailed,
    /// The logger plugin was registered.
    LoggerRegistered,
    /// The logger plugin failed to initialise.
    LoggerFailed,
    /// The helper process ended with this exit code.
    HelperExited(i32),
}

/// What the application is asked to do next.
#[derive(Clone, Copy, Debug, PartialEq, Eq, Structural)]
pub enum Action {
    /// Locate the helper binary for the running platform.
    ResolveHelper,
    /// Start the helper as a child process, without waiting on it.
    SpawnHelper,
    /// Register the diagnostic logger plugin.
    RegisterLogger,
    /// End setup successfully; the window is shown.
    FinishSetup,
    /// Halt startup with this error; no window is shown.
    Abort(StartupError),
    /// Nothing to do.
    Idle,
}

/// A running (or ended) helper process.
#[derive(Clone, Copy, Debug, PartialEq, Eq, Structural)]
pub struct HelperHandle {
    pub pid: u32,
    /// The exit code, once the helper has ended.
    pub exit_code: Option<i32>,
}

impl HelperHandle {
    pub open spec fn is_running(self) -> bool {
        self.exit_code is None
    }

    pub fn running(&self) -> (r: bool)
        ensures
            r == self.is_running(),
    {
        self.exit_code.is_none()
    }
}

/// The startup supervisor: it owns the helper handle for the lifetime of
/// the application and decides each step of the startup sequence.
#[derive(Clone, Copy, Debug, PartialEq, Eq, Structural)]
pub struct Supervisor {
    pub phase: Phase,
    /// Whether this is a debug build, which also registers the logger.
    pub debug: bool,
    pub helper: Option<HelperHandle>,
}

/// The supervisor at application launch.
pub open spec fn initial(debug: bool) -> Supervisor {
    Supervisor { phase: Phase::Resolving, debug, helper: None }
}

/// The transition table: the supervisor after `e`, and the action it asks for.
pub open spec fn next(s: Supervisor, e: Event) -> (Supervisor, Action) {
    match (s.phase, e) {
        (Phase::Resolving, Event::Resolved) => (
            Supervisor { phase: Phase::Spawning, ..s },
            Action::SpawnHelper,
        ),
        (Phase::Resolving, Event::ResolutionFailed) => (
            Supervisor { phase: Phase::Failed(StartupError::Resolution), ..s },
            Action::Abort(StartupError::Resolution),
        ),
        (Phase::Spawning, Event::Spawned(pid)) => {
            let h = Some(HelperHandle { pid, exit_code: None });
            if s.debug {
                (
                    Supervisor { phase: Phase::RegisteringLogger, helper: h, ..s },
                    Action::RegisterLogger,
                )
            } else {
                (Supervisor { phase: Phase::Ready, helper: h, ..s }, Action::FinishSetup)
            }
        },
        (Phase::Spawning, Event::SpawnFailed) => (
            Supervisor { phase: Phase::Failed(StartupError::Spawn), ..s },
            Action::Abort(StartupError::Spawn),
        ),
        (Phase::RegisteringLogger, Event::LoggerRegistered) => (
            Supervisor { phase: Phase::Ready, ..s },
            Action::FinishSetup,
        ),
        (Phase::RegisteringLogger, Event::LoggerFailed) => (
            Supervisor { phase: Phase::Failed(StartupError::PluginInit), ..s },
            Action::Abort(StartupError::PluginInit),
        ),
        (_, Event::HelperExited(code)) => match s.helper {
            Some(h) => (
                Supervisor { helper: Some(HelperHandle { exit_code: Some(code), ..h }), ..s },
                Action::Idle,
            ),
            None => (s, Action::Idle),
        },
        _ => (s, Action::Idle),
    }
}

/// The supervisor after the events `es`, from `s`, and the actions asked
/// for on the way, one per event.
pub open spec fn run(s: Supervisor, es: Seq<Event>) -> (Supervisor, Seq<Action>)
    decreases es.len(),
{
    if es.len() == 0 {
        (s, Seq::empty())
    } else {
        let (s1, acts) = run(s, es.drop_last());
        let (s2, a) = next(s1, es.last());
        (s2, acts.push(a))
    }
}

/// Every action of a launch with build flavour `debug` that sees the events
/// `es`: the first request to locate the helper, then one per event.
pub open spec fn launch_actions(debug: bool, es: Seq<Event>) -> Seq<Action> {
    seq![Action::ResolveHelper] + run(initial(debug), es).1
}

impl Supervisor {
    /// A supervisor at launch; its first action is `first_action`.
    pub fn new(debug: bool) -> (r: Supervisor)
        ensures
            r == initial(debug),
    {
        Supervisor { phase: Phase::Resolving, debug, helper: None }
    }

    /// The action that opens every launch: locate the helper binary.
    pub fn first_action(&self) -> (r: Action)
        ensures
            r == Action::ResolveHelper,
    {
        Action::ResolveHelper
    }

    /// Takes in one event and returns the action it calls for.
    pub fn step(&mut self, e: Event) -> (a: Action)
        ensures
            (*final(self), a) == next(*old(self), e),
    {
        match (self.phase, e) {
            (Phase::Resolving, Event::Resolved) => {
                self.phase = Phase::Spawning;
                Action::SpawnHelper
            },
            (Phase::Resolving, Event::ResolutionFailed) => {
                self.phase = Phase::Failed(StartupError::Resolution);
                Action::Abort(StartupError::Resolution)
            },
            (Phase::Spawning, Event::Spawned(pid)) => {
                self.helper = Some(HelperHandle { pid, exit_code: None });
                if self.debug {
                    self.phase = Phase::RegisteringLogger;
                    Action::RegisterLogger
                } else {
                    self.phase = Phase::Ready;
                    Action::FinishSetup
                }
            },
            (Phase::Spawning, Event::SpawnFailed) => {
                self.phase = Phase::Failed(StartupError::Spawn);
                Action::Abort(StartupError::Spawn)
            },
            (Phase::RegisteringLogger, Event::LoggerRegistered) => {
                self.phase = Phase::Ready;
                Action::FinishSetup
            },
            (Phase::RegisteringLogger, Event::LoggerFailed) => {
                self.phase = Phase::Failed(StartupError::PluginInit);
                Action::Abort(StartupError::PluginInit)
            },
            (_, Event::HelperExited(code)) => {
                if let Some(h) = self.helper {
                    self.helper = Some(HelperHandle { pid: h.pid, exit_code: Some(code) });
                }
                Action::Idle
            },
            _ => Action::Idle,
        }
    }
}

/// Runs a whole launch on the events `es`: the supervisor at its end, and
/// every action asked for, the opening one included.
pub fn launch(debug: bool, es: &Vec<Event>) -> (r: (Supervisor, Vec<Action>))
    ensures
        r.0 == run(initial(debug), es@).0,
        r.1@ == launch_actions(debug, es@),
{
    let mut s = Supervisor::new(debug);
    let mut acts: Vec<Action> = Vec::new();
    acts.push(s.first_action());
    let mut i: usize = 0;
    while i < es.len()
        invariant
            i <= es@.len(),
            s == run(initial(debug), es@.subrange(0, i as int)).0,
            acts@ == seq![Action::ResolveHelper] + run(initial(debug), es@.subrange(0, i as int)).1,
        decreases es@.len() - i,
    {
        let a = s.step(es[i]);
        acts.push(a);
        proof {
            let pre = es@.subrange(0, i as int);
            let cur = es@.subrange(0, i + 1);
            assert(cur.drop_last() =~= pre);
            assert(cur.last() == es@[i as int]);
        }
        i = i + 1;
    }
    assert(es@.subrange(0, es@.len() as int) =~= es@);
    (s, acts)
}


/// Whether the index `i` of `acts` asks for the helper to be spawned.
pub open spec fn spawns_at(acts: Seq<Action>, i: int) -> bool {
    0 <= i < acts.len() && acts[i] == Action::SpawnHelper
}

/// The phases in which the helper has been asked for.
pub open spec fn past_spawn(p: Phase) -> bool {
    p is Spawning || p is RegisteringLogger || p is Ready
}

spec fn spawn_inv(debug: bool, s: Supervisor, acts: Seq<Action>) -> bool {
    &&& s.debug == debug
    &&& s.phase is Resolving ==> s.helper is None && forall|i: int| !spawns_at(acts, i)
    &&& forall|i: int, j: int| spawns_at(acts, i) && spawns_at(acts, j) ==> i == j
    &&& past_spawn(s.phase) ==> exists|i: int| spawns_at(acts, i)
}

proof fn lemma_spawn_invariant(debug: bool, es: Seq<Event>)
    ensures
        run(initial(debug), es).1.len() == es.len(),
        spawn_inv(debug, run(initial(debug), es).0, run(initial(debug), es).1),
    decreases es.len(),
{
    if es.len() > 0 {
        lemma_spawn_invariant(debug, es.drop_last());
        let s1 = run(initial(debug), es.drop_last()).0;
        let acts1 = run(initial(debug), es.drop_last()).1;
        let s2 = next(s1, es.last()).0;
        let a = next(s1, es.last()).1;
        let acts2 = acts1.push(a);
        assert(run(initial(debug), es) == (s2, acts2));
        assert(forall|i: int| 0 <= i < acts1.len() ==> acts2[i] == acts1[i]);
        if a == Action::SpawnHelper {
            assert(s1.phase is Resolving);
            assert forall|i: int| spawns_at(acts2, i) implies i == acts1.len() by {
                if i < acts1.len() {
                    assert(acts2[i] == acts1[i]);
                    assert(spawns_at(acts1, i));
                }
            }
            assert(spawns_at(acts2, acts1.len() as int));
        } else {
            assert(forall|i: int| spawns_at(acts2, i) ==> spawns_at(acts1, i));
            if past_spawn(s2.phase) {
                let i = choose|i: int| spawns_at(acts1, i);
                assert(spawns_at(acts2, i));
            }
        }
        assert(spawn_inv(debug, s2, acts2));
    }
}

/// A launch asks for the helper process at most once, whatever events it
/// sees; a launch that completes setup has asked for it exactly once.
pub proof fn lemma_single_spawn(debug: bool, es: Seq<Event>)
    ensures
        forall|i: int, j: int|
            spawns_at(launch_actions(debug, es), i) && spawns_at(launch_actions(debug, es), j)
                ==> i == j,
        run(initial(debug), es).0.phase is Ready ==> exists|i: int|
            spawns_at(launch_actions(debug, es), i),
{
    lemma_spawn_invariant(debug, es);
    let acts = run(initial(debug), es).1;
    let all = launch_actions(debug, es);
    assert(forall|i: int| 0 < i < all.len() ==> all[i] == acts[i - 1]);
    assert(forall|i: int| spawns_at(all, i) ==> i > 0 && spawns_at(acts, i - 1));
    if run(initial(debug), es).0.phase is Ready {
        let i = choose|i: int| spawns_at(acts, i);
        assert(spawns_at(all, i + 1));
    }
}

/// A launch whose first event is a failure to find the helper binary halts
/// with a resolution error: it never asks for the helper nor finishes setup,
/// so no window is shown, and later events change nothing.
pub proof fn lemma_missing_helper_halts(debug: bool, es: Seq<Event>)
    requires
        es.len() > 0,
        es[0] == Event::ResolutionFailed,
    ensures
        run(initial(debug), es).0.phase == Phase::Failed(StartupError::Resolution),
        launch_actions(debug, es)[1] == Action::Abort(StartupError::Resolution),
        forall|i: int| 0 <= i < launch_actions(debug, es).len() ==> {
            let a = #[trigger] launch_actions(debug, es)[i];
            a != Action::FinishSetup && a != Action::SpawnHelper
        },
{
    lemma_missing_helper_run(debug, es);
    let acts = run(initial(debug), es).1;
    let all = launch_actions(debug, es);
    assert(forall|i: int| 0 < i < all.len() ==> all[i] == acts[i - 1]);
}

proof fn lemma_missing_helper_run(debug: bool, es: Seq<Event>)
    requires
        es.len() > 0,
        es[0] == Event::ResolutionFailed,
    ensures
        ({
            let (s, acts) = run(initial(debug), es);
            &&& s.phase == Phase::Failed(StartupError::Resolution)
            &&& s.helper is None
            &&& acts.len() == es.len()
            &&& acts[0] == Action::Abort(StartupError::Resolution)
            &&& forall|i: int| 0 < i < acts.len() ==> acts[i] == Action::Idle
        }),
    decreases es.len(),
{
    assert(es.last() == es[es.len() - 1]);
    if es.len() > 1 {
        assert(es.drop_last()[0] == es[0]);
        lemma_missing_helper_run(debug, es.drop_last());
        let acts1 = run(initial(debug), es.drop_last()).1;
        let acts2 = run(initial(debug), es).1;
        assert(forall|i: int| 0 <= i < acts1.len() ==> acts2[i] == acts1[i]);
    } else {
        assert(es.drop_last().len() == 0);
    }
}

/// Spawning does not wait on the helper: once it is created, the next
/// action goes on with startup, and the handle holds its process
/// identifier. A launch where every step succeeds is ready after the
/// spawn and at most one more event, none of them from the helper.
pub proof fn lemma_spawn_does_not_wait(s: Supervisor, pid: u32)
    requires
        s.phase is Spawning,
    ensures
        next(s, Event::Spawned(pid)).0.helper == Some(HelperHandle { pid, exit_code: None }),
        next(s, Event::Spawned(pid)).1 == Action::RegisterLogger
            || next(s, Event::Spawned(pid)).1 == Action::FinishSetup,
        ({
            let es = if s.debug {
                seq![Event::Resolved, Event::Spawned(pid), Event::LoggerRegistered]
            } else {
                seq![Event::Resolved, Event::Spawned(pid)]
            };
            let (r, acts) = run(initial(s.debug), es);
            &&& r.phase is Ready
            &&& r.helper == Some(HelperHandle { pid, exit_code: None })
            &&& acts.last() == Action::FinishSetup
        }),
{
    let es2 = seq![Event::Resolved, Event::Spawned(pid)];
    let es3 = seq![Event::Resolved, Event::Spawned(pid), Event::LoggerRegistered];
    assert(es2.drop_last() =~= seq![Event::Resolved]);
    assert(es2.drop_last().drop_last() =~= Seq::<Event>::empty());
    assert(es3.drop_last() =~= es2);
    reveal_with_fuel(run, 4);
}

/// The helper ending, with whatever exit code, never moves startup on or
/// back, and asks for nothing: startup does not depend on the helper's exit.
pub proof fn lemma_helper_exit_ignored(s: Supervisor, code: i32)
    ensures
        next(s, Event::HelperExited(code)).0.phase == s.phase,
        next(s, Event::HelperExited(code)).1 == Action::Idle,
        s.helper is Some ==> next(s, Event::HelperExited(code)).0.helper == Some(
            HelperHandle { exit_code: Some(code), ..s.helper.unwrap() },
        ),
{
}

} // verus!
