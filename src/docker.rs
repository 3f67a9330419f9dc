//! The sandbox lifecycle: create, limit, populate, start, observe, inspect,
//! and the rollback that removes a half-built sandbox.
//!
//! `Lifecycle` decides; its driver talks to the container engine. Each call of
//! `Lifecycle::step` takes the outcome of the last engine operation and hands
//! out the next one, until it hands out `Action::Finish`.

use crate::utils::{is_sandbox_name, random_string};
use crate::AppError;
use vstd::prelude::*;

verus! {

/// Program that the sandbox runs: the fixed entry point of every archive.
pub const ENTRY_POINT: &'static str = "/opt/run";

/// Directory into which the archive is expanded and in which it runs.
pub const WORKING_DIR: &'static str = "/opt";

/// Output and exit status of one run.
#[derive(Debug, PartialEq, Eq)]
pub struct RunCodeResponse {
    pub stdout: Vec<u8>,
    pub stderr: Vec<u8>,
    pub exit_code: Option<i64>,
}

/// Combines collected output with the final exit status.
pub fn assemble(stdout: Vec<u8>, stderr: Vec<u8>, exit_code: Option<i64>) -> (r: RunCodeResponse)
    ensures
        r.stdout@ == stdout@,
        r.stderr@ == stderr@,
        r.exit_code == exit_code,
{
    RunCodeResponse { stdout, stderr, exit_code }
}

/// What a client submitted, accepted for execution.
#[derive(Debug, PartialEq, Eq)]
pub struct ExecutionRequest {
    /// Archive of a project with an executable at `ENTRY_POINT`.
    pub archive: Vec<u8>,
    /// Wall-clock budget, in milliseconds.
    pub time_budget_ms: u64,
    /// Memory ceiling, in bytes.
    pub max_memory: i64,
}

/// Memory ceiling of a sandbox. Swap is capped at the same value, so that a
/// process that outgrows its memory is killed instead of swapping.
#[derive(Debug, PartialEq, Eq)]
pub struct ResourceLimits {
    memory: i64,
    memory_swap: i64,
}

impl ResourceLimits {
    #[verifier::type_invariant]
    spec fn swap_equals_memory(self) -> bool {
        self.memory == self.memory_swap
    }

    /// The memory ceiling, in bytes.
    pub closed spec fn ceiling(self) -> i64 {
        self.memory
    }

    /// Limits with the given memory ceiling.
    pub fn new(ceiling: i64) -> (r: ResourceLimits)
        ensures
            r.ceiling() == ceiling,
    {
        ResourceLimits { memory: ceiling, memory_swap: ceiling }
    }

    /// The memory limit to configure.
    pub fn memory(&self) -> (r: i64)
        ensures
            r == self.ceiling(),
    {
        self.memory
    }

    /// The memory-plus-swap limit to configure: always the memory ceiling.
    pub fn memory_swap(&self) -> (r: i64)
        ensures
            r == self.ceiling(),
    {
        proof {
            use_type_invariant(self);
        }
        self.memory_swap
    }
}

/// How a sandbox is created.
#[derive(Clone, Copy, Debug, PartialEq, Eq)]
pub struct SandboxConfig {
    pub command: &'static str,
    pub working_dir: &'static str,
    pub network_disabled: bool,
    /// The engine removes the sandbox by itself once its process has exited.
    pub auto_remove: bool,
}

/// The configuration every sandbox is created with.
pub open spec fn sandbox_policy() -> SandboxConfig {
    SandboxConfig {
        command: ENTRY_POINT,
        working_dir: WORKING_DIR,
        network_disabled: true,
        auto_remove: true,
    }
}

/// The configuration every sandbox is created with.
pub fn sandbox_config() -> (r: SandboxConfig)
    ensures
        r == sandbox_policy(),
{
    SandboxConfig {
        command: ENTRY_POINT,
        working_dir: WORKING_DIR,
        network_disabled: true,
        auto_remove: true,
    }
}

/// One fragment of the sandbox's combined output stream.
#[derive(Debug, PartialEq, Eq)]
pub enum LogChunk {
    StdOut(Vec<u8>),
    StdErr(Vec<u8>),
    /// Any other framing; its bytes are not kept.
    Other,
}

/// Concatenation, in arrival order, of the standard-output chunks.
pub open spec fn stdout_of(chunks: Seq<LogChunk>) -> Seq<u8>
    decreases chunks.len(),
{
    if chunks.len() == 0 {
        Seq::empty()
    } else {
        let rest = stdout_of(chunks.drop_last());
        match chunks.last() {
            LogChunk::StdOut(m) => rest + m@,
            _ => rest,
        }
    }
}

/// Concatenation, in arrival order, of the standard-error chunks.
pub open spec fn stderr_of(chunks: Seq<LogChunk>) -> Seq<u8>
    decreases chunks.len(),
{
    if chunks.len() == 0 {
        Seq::empty()
    } else {
        let rest = stderr_of(chunks.drop_last());
        match chunks.last() {
            LogChunk::StdErr(m) => rest + m@,
            _ => rest,
        }
    }
}

/// Where a lifecycle stands: the reply to which engine operation it awaits.
#[derive(Clone, Copy, Debug, PartialEq, Eq, Structural)]
pub enum Phase {
    /// Awaits the creation of the sandbox.
    Creating,
    /// Awaits the resource limits.
    Limiting,
    /// Awaits the upload of the archive.
    Uploading,
    /// Awaits the start of the entry point.
    Starting,
    /// Reads the output stream until it closes.
    Running,
    /// Awaits the final state of the sandbox.
    Inspecting,
    /// Awaits the removal of a sandbox whose setup failed.
    RollingBack,
    /// Has handed out its result.
    Done,
}

/// The step of a lifecycle that failed.
#[derive(Clone, Copy, Debug, PartialEq, Eq, Structural)]
pub enum Failure {
    CreateFailed,
    LimitFailed,
    UploadFailed,
    StartFailed,
    InspectFailed,
}

/// The outcome of the engine operation that was handed out last.
#[derive(Debug, PartialEq, Eq)]
pub enum Event {
    /// The operation succeeded.
    Succeeded,
    /// The operation failed; the engine's reason is not the client's business.
    Failed,
    /// The output stream delivered a chunk.
    Output(LogChunk),
    /// The output stream closed: the process has exited.
    StreamClosed,
    /// The final state was read, with the exit code if the engine had one.
    Inspected(Option<i64>),
}

/// The next engine operation, or the end.
#[derive(Debug, PartialEq, Eq)]
pub enum Action {
    /// Create the sandbox under the lifecycle's name.
    Create(SandboxConfig),
    /// Apply these limits to the sandbox.
    ApplyLimits(ResourceLimits),
    /// Expand this archive into the directory `path` of the sandbox.
    Upload { path: &'static str, archive: Vec<u8> },
    /// Start the entry point.
    Start,
    /// Arm a watchdog that kills the sandbox once `budget_ms` milliseconds
    /// have elapsed, without awaiting it, and read the output stream.
    Observe { budget_ms: u64 },
    /// Read the next event of the output stream.
    ReadOutput,
    /// Read the final state of the sandbox.
    Inspect,
    /// Remove the sandbox (forced, with its volumes) after this failure;
    /// a removal that fails does not change the outcome.
    Remove(Failure),
    /// Hand this result to the client.
    Finish(Result<RunCodeResponse, AppError>),
}

/// The phase that follows `p` on event `e`.
pub open spec fn next_phase(p: Phase, e: Event) -> Phase {
    match p {
        Phase::Creating => if e is Succeeded { Phase::Limiting } else { Phase::Done },
        Phase::Limiting => if e is Succeeded { Phase::Uploading } else { Phase::RollingBack },
        Phase::Uploading => if e is Succeeded { Phase::Starting } else { Phase::RollingBack },
        Phase::Starting => if e is Succeeded { Phase::Running } else { Phase::RollingBack },
        Phase::Running => if e is StreamClosed { Phase::Inspecting } else { Phase::Running },
        Phase::Inspecting => Phase::Done,
        Phase::RollingBack => Phase::Done,
        Phase::Done => Phase::Done,
    }
}

/// Whether a sandbox that exists in phase `p` is sure to go away without
/// further steps: none was created yet, its process was started under
/// auto-removal, or its removal was requested.
pub open spec fn reclaim_arranged(p: Phase) -> bool {
    !(p is Limiting || p is Uploading || p is Starting)
}

/// The lifecycle of the one sandbox that serves one request.
pub struct Lifecycle {
    handle: String,
    phase: Phase,
    time_budget_ms: u64,
    limits: ResourceLimits,
    archive: Vec<u8>,
    stdout: Vec<u8>,
    stderr: Vec<u8>,
    submitted: Ghost<Seq<u8>>,
    received: Ghost<Seq<LogChunk>>,
}

impl Lifecycle {
    /// The name of the sandbox, the key of every engine operation.
    pub closed spec fn name(&self) -> Seq<char> {
        self.handle@
    }

    pub closed spec fn phase(&self) -> Phase {
        self.phase
    }

    pub closed spec fn budget(&self) -> u64 {
        self.time_budget_ms
    }

    pub closed spec fn ceiling(&self) -> i64 {
        self.limits.ceiling()
    }

    /// The archive that was submitted.
    pub closed spec fn archive(&self) -> Seq<u8> {
        self.submitted@
    }

    /// The output chunks received so far, in arrival order.
    pub closed spec fn received(&self) -> Seq<LogChunk> {
        self.received@
    }

    pub closed spec fn wf(&self) -> bool {
        &&& is_sandbox_name(self.handle@)
        &&& (self.phase is Creating || self.phase is Limiting) ==> self.archive@ == self.submitted@
        &&& !(self.phase is Done) ==> self.stdout@ == stdout_of(self.received@)
        &&& !(self.phase is Done) ==> self.stderr@ == stderr_of(self.received@)
    }

    /// Begins the lifecycle of a request: names its sandbox and asks for its
    /// creation.
    pub fn new(request: ExecutionRequest) -> (r: (Lifecycle, Action))
        ensures
            r.0.wf(),
            is_sandbox_name(r.0.name()),
            r.0.phase() == Phase::Creating,
            r.0.budget() == request.time_budget_ms,
            r.0.ceiling() == request.max_memory,
            r.0.archive() == request.archive@,
            r.0.received() == Seq::<LogChunk>::empty(),
            r.1 == Action::Create(sandbox_policy()),
    {
        let handle = random_string();
        let ghost submitted = request.archive@;
        let lifecycle = Lifecycle {
            handle,
            phase: Phase::Creating,
            time_budget_ms: request.time_budget_ms,
            limits: ResourceLimits::new(request.max_memory),
            archive: request.archive,
            stdout: Vec::new(),
            stderr: Vec::new(),
            submitted: Ghost(submitted),
            received: Ghost(Seq::empty()),
        };
        (lifecycle, Action::Create(sandbox_config()))
    }

    /// The name of the sandbox.
    pub fn handle(&self) -> (r: &str)
        ensures
            r@ == self.name(),
    {
        self.handle.as_str()
    }

    /// Whether the lifecycle has handed out its result.
    pub fn is_done(&self) -> (r: bool)
        ensures
            r == (self.phase() is Done),
    {
        self.phase == Phase::Done
    }

    /// Takes the outcome of the last operation and hands out the next one.
    pub fn step(&mut self, event: Event) -> (a: Action)
        requires
            old(self).wf(),
        ensures
            final(self).wf(),
            final(self).name() == old(self).name(),
            final(self).budget() == old(self).budget(),
            final(self).ceiling() == old(self).ceiling(),
            final(self).archive() == old(self).archive(),
            final(self).phase() == next_phase(old(self).phase(), event),
            event matches Event::Output(c) ==> (old(self).phase() is Running
                ==> final(self).received() == old(self).received().push(c)),
            !(old(self).phase() is Running && event is Output)
                ==> final(self).received() == old(self).received(),
            a is Finish <==> final(self).phase() is Done,
            a is Finish ==> reclaim_arranged(old(self).phase()),
            (old(self).phase() is Creating && !(event is Succeeded)) ==> a == Action::Finish(
                Err(AppError::InternalServerError),
            ),
            (old(self).phase() is Creating && event is Succeeded) ==> (a matches Action::ApplyLimits(
                l,
            ) && l.ceiling() == old(self).ceiling()),
            (old(self).phase() is Limiting && event is Succeeded) ==> (a matches Action::Upload {
                path,
                archive,
            } && path == WORKING_DIR && archive@ == old(self).archive()),
            (old(self).phase() is Limiting && !(event is Succeeded)) ==> a == Action::Remove(
                Failure::LimitFailed,
            ),
            (old(self).phase() is Uploading && event is Succeeded) ==> a is Start,
            (old(self).phase() is Uploading && !(event is Succeeded)) ==> a == Action::Remove(
                Failure::UploadFailed,
            ),
            (old(self).phase() is Starting && event is Succeeded) ==> a == (Action::Observe {
                budget_ms: old(self).budget(),
            }),
            (old(self).phase() is Starting && !(event is Succeeded)) ==> a == Action::Remove(
                Failure::StartFailed,
            ),
            (old(self).phase() is Running && !(event is StreamClosed)) ==> a is ReadOutput,
            (old(self).phase() is Running && event is StreamClosed) ==> a is Inspect,
            event matches Event::Inspected(code) ==> (old(self).phase() is Inspecting ==> (a matches Action::Finish(
                Ok(resp),
            ) && resp.stdout@ == stdout_of(old(self).received()) && resp.stderr@ == stderr_of(
                old(self).received(),
            ) && resp.exit_code == code)),
            (old(self).phase() is Inspecting && !(event is Inspected)) ==> a == Action::Finish(
                Err(AppError::InternalServerError),
            ),
            (old(self).phase() is RollingBack || old(self).phase() is Done) ==> a == Action::Finish(
                Err(AppError::InternalServerError),
            ),
    {
        match self.phase {
            Phase::Creating => {
                if matches!(event, Event::Succeeded) {
                    self.phase = Phase::Limiting;
                    Action::ApplyLimits(ResourceLimits::new(self.limits.memory()))
                } else {
                    self.phase = Phase::Done;
                    Action::Finish(Err(AppError::InternalServerError))
                }
            },
            Phase::Limiting => {
                if matches!(event, Event::Succeeded) {
                    self.phase = Phase::Uploading;
                    let mut archive: Vec<u8> = Vec::new();
                    std::mem::swap(&mut archive, &mut self.archive);
                    Action::Upload { path: WORKING_DIR, archive }
                } else {
                    self.phase = Phase::RollingBack;
                    Action::Remove(Failure::LimitFailed)
                }
            },
            Phase::Uploading => {
                if matches!(event, Event::Succeeded) {
                    self.phase = Phase::Starting;
                    Action::Start
                } else {
                    self.phase = Phase::RollingBack;
                    Action::Remove(Failure::UploadFailed)
                }
            },
            Phase::Starting => {
                if matches!(event, Event::Succeeded) {
                    self.phase = Phase::Running;
                    Action::Observe { budget_ms: self.time_budget_ms }
                } else {
                    self.phase = Phase::RollingBack;
                    Action::Remove(Failure::StartFailed)
                }
            },
            Phase::Running => {
                let ghost ev = event;
                match event {
                    Event::Output(chunk) => {
                        let ghost c = chunk;
                        self.received = Ghost(self.received@.push(c));
                        match chunk {
                            LogChunk::StdOut(mut m) => self.stdout.append(&mut m),
                            LogChunk::StdErr(mut m) => self.stderr.append(&mut m),
                            LogChunk::Other => {},
                        }
                        proof {
                            assert(self.received@.drop_last() =~= old(self).received@);
                        }
                        Action::ReadOutput
                    },
                    Event::StreamClosed => {
                        self.phase = Phase::Inspecting;
                        Action::Inspect
                    },
                    _ => Action::ReadOutput,
                }
            },
            Phase::Inspecting => {
                self.phase = Phase::Done;
                match event {
                    Event::Inspected(code) => {
                        let mut stdout: Vec<u8> = Vec::new();
                        let mut stderr: Vec<u8> = Vec::new();
                        std::mem::swap(&mut stdout, &mut self.stdout);
                        std::mem::swap(&mut stderr, &mut self.stderr);
                        Action::Finish(Ok(assemble(stdout, stderr, code)))
                    },
                    _ => Action::Finish(Err(AppError::InternalServerError)),
                }
            },
            Phase::RollingBack => {
                self.phase = Phase::Done;
                Action::Finish(Err(AppError::InternalServerError))
            },
            Phase::Done => Action::Finish(Err(AppError::InternalServerError)),
        }
    }
}

/// The phase reached from `p` after `events`, in order.
pub open spec fn run(p: Phase, events: Seq<Event>) -> Phase
    decreases events.len(),
{
    if events.len() == 0 {
        p
    } else {
        next_phase(run(p, events.drop_last()), events.last())
    }
}

/// Every lifecycle that has ended took its last step from a phase in which
/// its sandbox is reclaimed without further steps: it was never created, it
/// was started under auto-removal, or its removal was requested.
pub proof fn lemma_end_reclaims(events: Seq<Event>)
    ensures
        run(Phase::Creating, events) is Done ==> exists|i: int|
            0 <= i < events.len() && reclaim_arranged(#[trigger] run(Phase::Creating, events.take(i)))
                && next_phase(run(Phase::Creating, events.take(i)), events[i]) is Done,
    decreases events.len(),
{
    if events.len() > 0 {
        let prefix = events.drop_last();
        let last = (events.len() - 1) as int;
        lemma_end_reclaims(prefix);
        if run(Phase::Creating, prefix) is Done {
            let i = choose|i: int|
                0 <= i < prefix.len() && reclaim_arranged(#[trigger] run(Phase::Creating, prefix.take(i)))
                    && next_phase(run(Phase::Creating, prefix.take(i)), prefix[i]) is Done;
            assert(prefix.take(i) =~= events.take(i));
            assert(run(Phase::Creating, events.take(i)) == run(Phase::Creating, prefix.take(i)));
        } else if run(Phase::Creating, events) is Done {
            assert(events.take(last) =~= prefix);
            assert(reclaim_arranged(run(Phase::Creating, events.take(last))));
        }
    }
}

/// A failed setup step after creation leads to the removal of the sandbox,
/// and whatever the removal's outcome, to the end of the lifecycle.
pub proof fn lemma_setup_failure_rolls_back(p: Phase, failure: Event, removal: Event)
    requires
        p is Limiting || p is Uploading || p is Starting,
        !(failure is Succeeded),
    ensures
        next_phase(p, failure) == Phase::RollingBack,
        reclaim_arranged(Phase::RollingBack),
        next_phase(Phase::RollingBack, removal) == Phase::Done,
{
}

/// Each channel's bytes are those of its chunks in arrival order: what a
/// later stretch of chunks adds comes after what an earlier one gave.
pub proof fn lemma_channels_concat(a: Seq<LogChunk>, b: Seq<LogChunk>)
    ensures
        stdout_of(a + b) == stdout_of(a) + stdout_of(b),
        stderr_of(a + b) == stderr_of(a) + stderr_of(b),
    decreases b.len(),
{
    if b.len() == 0 {
        assert(a + b =~= a);
        assert(stdout_of(a) + stdout_of(b) =~= stdout_of(a));
        assert(stderr_of(a) + stderr_of(b) =~= stderr_of(a));
    } else {
        lemma_channels_concat(a, b.drop_last());
        assert((a + b).drop_last() =~= a + b.drop_last());
        assert((a + b).last() == b.last());
        match b.last() {
            LogChunk::StdOut(m) => {
                assert(stdout_of(a) + stdout_of(b) =~= stdout_of(a) + stdout_of(b.drop_last()) + m@);
            },
            LogChunk::StdErr(m) => {
                assert(stderr_of(a) + stderr_of(b) =~= stderr_of(a) + stderr_of(b.drop_last()) + m@);
            },
            LogChunk::Other => {},
        }
    }
}

/// A chunk of unrecognized framing leaves both channels as they were.
pub proof fn lemma_other_dropped(chunks: Seq<LogChunk>)
    ensures
        stdout_of(chunks.push(LogChunk::Other)) == stdout_of(chunks),
        stderr_of(chunks.push(LogChunk::Other)) == stderr_of(chunks),
{
    assert(chunks.push(LogChunk::Other).drop_last() =~= chunks);
}

} // verus!
