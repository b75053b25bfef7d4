//! The process state machine and the launch / terminate decisions.

use vstd::prelude::*;

verus! {

/// The two process models the backend can be launched under. The choice is
/// a capability difference fixed at build time, not a runtime condition.
#[derive(Clone, Copy, PartialEq, Eq, Structural)]
pub enum Platform {
    /// The process model exposes no usable process groups: the backend is
    /// started through an intermediary shell that opens a titled terminal
    /// window, and termination goes by that window title.
    IntermediaryShell,
    /// POSIX-style process groups: the backend is spawned directly and the
    /// whole group is signalled at termination.
    ProcessGroup,
}

/// The tracked state of the backend process: idle (no live handle) or
/// running (one handle is held). At most one handle is ever tracked.
pub struct ProcessState {
    handle: Option<u32>,
}

impl ProcessState {
    /// The handle currently tracked, if any.
    pub closed spec fn handle(&self) -> Option<u32> {
        self.handle
    }

    /// No backend was launched, or it has already been cleaned up.
    pub open spec fn is_idle(&self) -> bool {
        self.handle() is None
    }

    /// A handle for a launched backend is tracked.
    pub open spec fn is_running(&self) -> bool {
        self.handle() is Some
    }

    /// The initial state: idle.
    pub fn new() -> (r: ProcessState)
        ensures
            r.is_idle(),
    {
        ProcessState { handle: None }
    }

    /// Runtime check of `is_idle`, for callers outside verified code.
    pub fn idle(&self) -> (r: bool)
        ensures
            r == self.is_idle(),
    {
        self.handle.is_none()
    }

    /// The tracked handle, observable at runtime.
    pub fn current_handle(&self) -> (r: Option<u32>)
        ensures
            r == self.handle(),
    {
        self.handle
    }

    /// Record the outcome of one launch attempt. The state moves from idle
    /// to running exactly when the spawn reported success; on failure it
    /// stays idle.
    pub fn record_launch(&mut self, outcome: Option<u32>)
        requires
            old(self).is_idle(),
        ensures
            final(self).handle() == outcome,
            final(self).is_running() <==> outcome is Some,
            outcome is None ==> final(self).is_idle(),
    {
        self.handle = outcome;
    }

    /// Remove and return the tracked handle; the state is idle afterwards.
    pub fn take(&mut self) -> (r: Option<u32>)
        ensures
            r == old(self).handle(),
            final(self).is_idle(),
    {
        let r = self.handle;
        self.handle = None;
        r
    }
}

/// The title given to the terminal window that the intermediary shell
/// opens, so that termination can find it again.
pub open spec fn backend_window_title() -> Seq<char> {
    "DataNexus Backend"@
}

/// The command line that starts the backend server itself.
pub open spec fn backend_start_command() -> Seq<char> {
    "python -m uvicorn main:app --reload"@
}

/// The filter the terminator hands to the forced-kill facility on the
/// intermediary-shell platform: the fixed window title, as a prefix match.
pub open spec fn kill_title_filter() -> Seq<char> {
    "DataNexus Backend*"@
}

/// The terminator's title filter is exactly the window title used at
/// launch, extended by the trailing wildcard: the kill request addresses
/// the very window the intermediary shell opened, however many process
/// layers the backend spawned through.
pub proof fn lemma_kill_filter_matches_launch_title()
    ensures
        kill_title_filter() == backend_window_title().push('*'),
{
    reveal_strlit("DataNexus Backend");
    reveal_strlit("DataNexus Backend*");
    assert(kill_title_filter() =~= backend_window_title().push('*'));
}

/// The program the launcher runs on each platform: the intermediary shell,
/// or the backend command directly.
pub open spec fn launch_program(p: Platform) -> Seq<char> {
    match p {
        Platform::IntermediaryShell => "cmd"@,
        Platform::ProcessGroup => "python"@,
    }
}

/// The arguments handed to that program. On the intermediary-shell
/// platform they open a new, titled terminal window and run the backend
/// start command inside it; on the process-group platform they are the
/// backend command's own arguments.
pub open spec fn launch_args(p: Platform) -> Seq<Seq<char>> {
    match p {
        Platform::IntermediaryShell => seq![
            "/c"@,
            "start"@,
            backend_window_title(),
            "cmd"@,
            "/k"@,
            backend_start_command(),
        ],
        Platform::ProcessGroup => seq!["-m"@, "uvicorn"@, "main:app"@, "--reload"@],
    }
}

/// What the launcher asks the OS process-creation facility to run: a
/// program name and its argument list. The shell executes it with the
/// resolved backend directory as working directory.
pub struct LaunchPlan {
    pub program: String,
    pub args: Vec<String>,
}

/// Build the spawn request for the given platform. On the
/// intermediary-shell platform the backend command is never spawned
/// directly: the program is the shell, and the backend command only
/// appears inside the argument list, behind the titled window.
pub fn launch_plan(platform: Platform) -> (r: LaunchPlan)
    ensures
        r.program@ == launch_program(platform),
        r.args.deep_view() == launch_args(platform),
{
    match platform {
        Platform::IntermediaryShell => {
            let mut args: Vec<String> = Vec::new();
            args.push("/c".to_owned());
            args.push("start".to_owned());
            args.push("DataNexus Backend".to_owned());
            args.push("cmd".to_owned());
            args.push("/k".to_owned());
            args.push("python -m uvicorn main:app --reload".to_owned());
            let r = LaunchPlan { program: "cmd".to_owned(), args };
            proof {
                assert(r.args.deep_view() =~= launch_args(platform));
            }
            r
        }
        Platform::ProcessGroup => {
            let mut args: Vec<String> = Vec::new();
            args.push("-m".to_owned());
            args.push("uvicorn".to_owned());
            args.push("main:app".to_owned());
            args.push("--reload".to_owned());
            let r = LaunchPlan { program: "python".to_owned(), args };
            proof {
                assert(r.args.deep_view() =~= launch_args(platform));
            }
            r
        }
    }
}

/// The one OS termination call the terminator may ask the shell to issue.
pub enum KillRequest {
    /// Forced kill of every process whose window title matches the filter;
    /// the tracked handle's numeric value plays no part.
    ByTitle { title_filter: String },
    /// An immediate, non-ignorable signal to the target id; negated, it
    /// addresses the whole process group.
    GroupSignal { target: i64 },
}

/// Consume the tracked handle and decide the termination call. With no
/// handle tracked this is a no-op: no OS call is requested. With one
/// tracked, the state is cleared unconditionally — whatever the OS later
/// makes of the request — and the request mirrors the launch asymmetry:
/// by window title on the intermediary-shell platform, by negated process
/// id (the whole group) on the process-group platform.
pub fn terminate(platform: Platform, state: &mut ProcessState) -> (r: Option<KillRequest>)
    ensures
        final(state).is_idle(),
        old(state).is_idle() ==> r is None,
        old(state).is_running() ==> r is Some,
        (old(state).is_running() && platform == Platform::IntermediaryShell) ==> (r matches Some(
            KillRequest::ByTitle { title_filter },
        ) && title_filter@ == kill_title_filter()),
        (old(state).is_running() && platform == Platform::ProcessGroup) ==> (r matches Some(
            KillRequest::GroupSignal { target },
        ) && target == -(old(state).handle()->Some_0 as i64)),
{
    match state.take() {
        None => None,
        Some(pid) => match platform {
            Platform::IntermediaryShell => Some(
                KillRequest::ByTitle { title_filter: "DataNexus Backend*".to_owned() },
            ),
            Platform::ProcessGroup => Some(KillRequest::GroupSignal { target: -(pid as i64) }),
        },
    }
}

} // verus!
