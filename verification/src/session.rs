//! The whole run as one pipeline: stage the ephemeral root, seed the target
//! executable and the device placeholder, materialize the image's layers
//! (when an image source is given — without one the root stays as
//! pre-seeded), commit the two one-way isolation transitions, spawn the
//! command, and emit its output and exit code. The caller performs each
//! requested action and reports what it observed; every decision, and in
//! particular the rule that isolation begins only after materialization has
//! fully completed, is made and proved here.

use vstd::prelude::*;
use vstd::pervasive::unreached;
use crate::errors::RunError;
use crate::executor::{execution_result, spec_exit_code, ExecutionResult};
use crate::image::ImageRef;
use crate::isolate::{IsolationOp, IsolationState};
use crate::pull::{lemma_step_outcome, pull_image, step_post, ImagePull, PullAction, PullEvent};
use crate::registry::{spec_auth_url, RegistryEndpoint};
use crate::rootprep::{dev_null_relative_path, seed_relative_path, spec_seed_relative_path};

verus! {

/// Where the run stands.
#[derive(Debug, Clone, Copy, PartialEq, Eq, Structural)]
pub enum SessionPhase {
    /// Waiting for the ephemeral root directory to be created.
    StagingRoot,
    /// Waiting for the target executable to be copied into the root.
    SeedingExecutable,
    /// Waiting for the device placeholder to be created.
    SeedingDevices,
    /// The embedded pull machine is fetching and unpacking layers.
    Materializing,
    /// Waiting for the next irreversible isolation operation.
    Isolating,
    /// Waiting for the spawned command to finish.
    Spawning,
    /// The command ran; its output and exit code were handed out.
    Finished,
    /// The run aborted; the `FailAndExit` action carried the error.
    Failed,
}

/// What the caller must do next.
#[derive(Debug)]
pub enum SessionAction {
    /// Create a fresh, process-exclusive temporary directory as the new root.
    StageRoot,
    /// Copy the target executable to this path under the root, creating
    /// intermediate directories, and report whether it succeeded.
    SeedExecutable { relative_path: String },
    /// Create an empty placeholder file at this path under the root.
    SeedDevNull { relative_path: String },
    /// Perform the embedded pull action and report the pull event.
    Pull { action: PullAction },
    /// Perform this privileged, irreversible isolation operation.
    Isolate { op: IsolationOp },
    /// Spawn the command with the arguments inside the isolated root, wait
    /// for it, and report its captured streams and status.
    Spawn { command: String, args: Vec<String> },
    /// Forward the captured streams verbatim and exit with the resolved code.
    EmitAndExit { result: ExecutionResult },
    /// Print this error's message to standard error and exit with code 1.
    FailAndExit { error: RunError },
}

/// What the caller observed for the last requested action.
#[derive(Debug)]
pub enum SessionEvent {
    Staged { ok: bool },
    Seeded { ok: bool },
    DeviceSeeded { ok: bool },
    Pulled { event: PullEvent },
    Isolated { ok: bool },
    Spawned { ok: bool, stdout: Vec<u8>, stderr: Vec<u8>, code: Option<i32> },
}

/// The state of one run.
#[derive(Debug)]
pub struct RunSession {
    pub endpoint: RegistryEndpoint,
    /// The optional image source: `None` runs with the pre-seeded root only.
    pub image: Option<ImageRef>,
    pub command: String,
    pub args: Vec<String>,
    pub pull: Option<ImagePull>,
    pub isolation: IsolationState,
    pub phase: SessionPhase,
}

impl RunSession {
    /// Materialization is over: no image source was given, or the pull
    /// completed every layer.
    pub open spec fn materialized(self) -> bool {
        self.image is Some ==> (self.pull matches Some(p) && p.phase
            is Complete)
    }

    /// The session's invariant. Before materialization no isolation has
    /// happened; while materializing, the embedded pull machine is sound and
    /// running against this session's endpoint and image; and from the first
    /// isolation step on, materialization is complete.
    pub open spec fn wf(self) -> bool {
        &&& (self.phase is StagingRoot || self.phase is SeedingExecutable || self.phase
            is SeedingDevices) ==> (self.pull is None && self.isolation is Unisolated)
        &&& self.phase is Materializing ==> {
            &&& self.isolation is Unisolated
            &&& self.image is Some
            &&& self.pull matches Some(p) && p.wf() && p.in_progress() && p.endpoint
                == self.endpoint && (self.image matches Some(img) && p.image == img)
        }
        &&& self.phase is Isolating ==> self.materialized() && self.isolation.rank() < 2
        &&& self.phase is Spawning ==> self.materialized() && self.isolation
            is NamespaceIsolated
        &&& self.phase is Finished ==> self.materialized()
    }

    /// The run still wants an event.
    pub open spec fn in_progress(self) -> bool {
        !(self.phase is Finished) && !(self.phase is Failed)
    }

    /// Which kind of event the current phase waits for.
    pub open spec fn expects(self, event: SessionEvent) -> bool {
        match self.phase {
            SessionPhase::StagingRoot => event is Staged,
            SessionPhase::SeedingExecutable => event is Seeded,
            SessionPhase::SeedingDevices => event is DeviceSeeded,
            SessionPhase::Materializing => event matches SessionEvent::Pulled { event: ev } && (
            self.pull matches Some(p) && p.expects(ev)),
            SessionPhase::Isolating => event is Isolated,
            SessionPhase::Spawning => event is Spawned,
            SessionPhase::Finished => false,
            SessionPhase::Failed => false,
        }
    }

    /// Executable check of `in_progress`, for callers outside the proof.
    pub fn is_in_progress(&self) -> (r: bool)
        ensures
            r == self.in_progress(),
    {
        match self.phase {
            SessionPhase::Finished => false,
            SessionPhase::Failed => false,
            _ => true,
        }
    }
}

/// The run's configuration never changes underway.
pub open spec fn session_config_frozen(pre: RunSession, post: RunSession) -> bool {
    &&& post.endpoint == pre.endpoint
    &&& post.image == pre.image
    &&& post.command@ == pre.command@
    &&& post.args@ == pre.args@
}

/// A staged root advances to seeding the executable at its expected path; a
/// staging failure ends the run with an I/O error.
pub open spec fn staging_step_post(
    pre: RunSession,
    ok: bool,
    post: RunSession,
    action: SessionAction,
) -> bool {
    &&& post.pull == pre.pull
    &&& post.isolation == pre.isolation
    &&& if ok {
        &&& post.phase is SeedingExecutable
        &&& action matches SessionAction::SeedExecutable { relative_path } && relative_path@
            == spec_seed_relative_path(pre.command@)
    } else {
        &&& post.phase is Failed
        &&& action matches SessionAction::FailAndExit { error } && error is IoError
    }
}

/// A seeded executable advances to the device placeholder; a copy failure
/// ends the run with a seed error naming the command.
pub open spec fn seed_step_post(
    pre: RunSession,
    ok: bool,
    post: RunSession,
    action: SessionAction,
) -> bool {
    &&& post.pull == pre.pull
    &&& post.isolation == pre.isolation
    &&& if ok {
        &&& post.phase is SeedingDevices
        &&& action matches SessionAction::SeedDevNull { relative_path } && relative_path@
            == "dev/null"@
    } else {
        &&& post.phase is Failed
        &&& action matches SessionAction::FailAndExit { error } && (error
            matches RunError::SeedError { path } && path@ == pre.command@)
    }
}

/// With the root fully pre-seeded, an image source starts the pull at its
/// token fetch; without one, materialization is skipped and isolation begins
/// at the root switch.
pub open spec fn devices_step_post(
    pre: RunSession,
    ok: bool,
    post: RunSession,
    action: SessionAction,
) -> bool {
    if !ok {
        &&& post.pull == pre.pull
        &&& post.isolation == pre.isolation
        &&& post.phase is Failed
        &&& action matches SessionAction::FailAndExit { error } && error is IoError
    } else {
        match pre.image {
            Some(img) => {
                &&& post.isolation == pre.isolation
                &&& post.phase is Materializing
                &&& post.pull matches Some(p) && p.phase is FetchingToken && p.endpoint
                    == pre.endpoint && p.image == img && p.token is None && p.digests@.len() == 0
                    && p.next_layer == 0
                &&& action matches SessionAction::Pull { action: pa } && (pa
                    matches PullAction::FetchToken { url } && url@ == spec_auth_url(
                    pre.endpoint,
                    img.name@,
                ))
            },
            None => {
                &&& post.pull == pre.pull
                &&& post.isolation == pre.isolation
                &&& post.phase is Isolating
                &&& action matches SessionAction::Isolate { op } && op is SwitchRoot
            },
        }
    }
}

/// One pull step, embedded: ordinary pull actions keep materializing, the
/// pull's `Finish` starts isolation at the root switch, and its `Abort` ends
/// the run with the pull's error.
pub open spec fn materialize_step_post(
    pre: RunSession,
    ev: PullEvent,
    post: RunSession,
    action: SessionAction,
) -> bool {
    &&& post.isolation == pre.isolation
    &&& pre.pull matches Some(prp) && (post.pull matches Some(pp) && match action {
        SessionAction::Pull { action: pa } => {
            &&& post.phase is Materializing
            &&& step_post(prp, ev, pp, pa)
            &&& !(pa is Finish)
            &&& !(pa is Abort)
        },
        SessionAction::Isolate { op } => {
            &&& post.phase is Isolating
            &&& op is SwitchRoot
            &&& step_post(prp, ev, pp, PullAction::Finish)
            &&& pp.phase is Complete
        },
        SessionAction::FailAndExit { error } => {
            &&& post.phase is Failed
            &&& step_post(prp, ev, pp, PullAction::Abort { error })
        },
        _ => false,
    })
}

/// One isolation outcome: denial fails closed with a privilege error;
/// success commits one forward transition, asks for the namespace detach
/// after the root switch, and spawns once fully isolated.
pub open spec fn isolate_step_post(
    pre: RunSession,
    ok: bool,
    post: RunSession,
    action: SessionAction,
) -> bool {
    &&& post.pull == pre.pull
    &&& if !ok {
        &&& post.isolation == pre.isolation
        &&& post.phase is Failed
        &&& action matches SessionAction::FailAndExit { error } && error is PrivilegeError
    } else {
        &&& post.isolation.rank() == pre.isolation.rank() + 1
        &&& if pre.isolation.rank() + 1 == 2 {
            &&& post.phase is Spawning
            &&& action matches SessionAction::Spawn { command, args } && command@ == pre.command@
                && args@ == pre.args@
        } else {
            &&& post.phase is Isolating
            &&& action matches SessionAction::Isolate { op } && op is UnsharePidNamespace
        }
    }
}

/// The spawn outcome: success hands out the captured streams verbatim with
/// the resolved exit code; a spawn failure ends the run with a spawn error
/// carrying the command and its arguments.
pub open spec fn spawn_step_post(
    pre: RunSession,
    ok: bool,
    stdout: Seq<u8>,
    stderr: Seq<u8>,
    code: Option<i32>,
    post: RunSession,
    action: SessionAction,
) -> bool {
    &&& post.pull == pre.pull
    &&& post.isolation == pre.isolation
    &&& if ok {
        &&& post.phase is Finished
        &&& action matches SessionAction::EmitAndExit { result } && result.stdout@ == stdout
            && result.stderr@ == stderr && result.exit_code as int == spec_exit_code(code)
    } else {
        &&& post.phase is Failed
        &&& action matches SessionAction::FailAndExit { error } && (error
            matches RunError::SpawnError { command, args } && command@ == pre.command@ && args@
            == pre.args@)
    }
}

/// The whole transition relation of one session step.
pub open spec fn session_step_post(
    pre: RunSession,
    event: SessionEvent,
    post: RunSession,
    action: SessionAction,
) -> bool {
    &&& session_config_frozen(pre, post)
    &&& match pre.phase {
        SessionPhase::StagingRoot => event matches SessionEvent::Staged { ok }
            && staging_step_post(pre, ok, post, action),
        SessionPhase::SeedingExecutable => event matches SessionEvent::Seeded { ok }
            && seed_step_post(pre, ok, post, action),
        SessionPhase::SeedingDevices => event matches SessionEvent::DeviceSeeded { ok }
            && devices_step_post(pre, ok, post, action),
        SessionPhase::Materializing => event matches SessionEvent::Pulled { event: ev }
            && materialize_step_post(pre, ev, post, action),
        SessionPhase::Isolating => event matches SessionEvent::Isolated { ok }
            && isolate_step_post(pre, ok, post, action),
        SessionPhase::Spawning => event matches SessionEvent::Spawned { ok, stdout, stderr, code }
            && spawn_step_post(pre, ok, stdout@, stderr@, code, post, action),
        SessionPhase::Finished => false,
        SessionPhase::Failed => false,
    }
}

/// Clones an argument list element by element.
fn clone_strings(v: &Vec<String>) -> (r: Vec<String>)
    ensures
        r@ == v@,
{
    let mut r: Vec<String> = Vec::new();
    let n = v.len();
    let mut i: usize = 0;
    while i < n
        invariant
            n == v@.len(),
            0 <= i <= n,
            r@ == v@.take(i as int),
        decreases n - i,
    {
        r.push(v[i].clone());
        proof {
            assert(r@ =~= v@.take(i + 1));
        }
        i += 1;
    }
    proof {
        assert(v@.take(n as int) =~= v@);
    }
    r
}

/// Begins one run: the session in its initial state, together with the first
/// action — staging the ephemeral root.
pub fn start_session(
    endpoint: RegistryEndpoint,
    image: Option<ImageRef>,
    command: String,
    args: Vec<String>,
) -> (r: (RunSession, SessionAction))
    ensures
        r.0.wf(),
        r.0.phase is StagingRoot,
        r.0.endpoint == endpoint,
        r.0.image == image,
        r.0.command@ == command@,
        r.0.args@ == args@,
        r.0.pull is None,
        r.0.isolation is Unisolated,
        r.1 is StageRoot,
{
    let session = RunSession {
        endpoint,
        image,
        command,
        args,
        pull: None,
        isolation: IsolationState::Unisolated,
        phase: SessionPhase::StagingRoot,
    };
    (session, SessionAction::StageRoot)
}

impl RunSession {
    /// Feeds back what the caller observed and decides the next action.
    pub fn step(&mut self, event: SessionEvent) -> (action: SessionAction)
        requires
            old(self).wf(),
            old(self).in_progress(),
            old(self).expects(event),
        ensures
            final(self).wf(),
            session_step_post(*old(self), event, *final(self), action),
    {
        match event {
            SessionEvent::Staged { ok } => match self.phase {
                SessionPhase::StagingRoot => {
                    if ok {
                        self.phase = SessionPhase::SeedingExecutable;
                        SessionAction::SeedExecutable {
                            relative_path: seed_relative_path(self.command.as_str()),
                        }
                    } else {
                        self.phase = SessionPhase::Failed;
                        SessionAction::FailAndExit { error: RunError::IoError }
                    }
                },
                _ => unreached(),
            },
            SessionEvent::Seeded { ok } => match self.phase {
                SessionPhase::SeedingExecutable => {
                    if ok {
                        self.phase = SessionPhase::SeedingDevices;
                        SessionAction::SeedDevNull { relative_path: dev_null_relative_path() }
                    } else {
                        self.phase = SessionPhase::Failed;
                        SessionAction::FailAndExit {
                            error: RunError::SeedError { path: self.command.clone() },
                        }
                    }
                },
                _ => unreached(),
            },
            SessionEvent::DeviceSeeded { ok } => match self.phase {
                SessionPhase::SeedingDevices => {
                    if !ok {
                        self.phase = SessionPhase::Failed;
                        return SessionAction::FailAndExit { error: RunError::IoError };
                    }
                    match &self.image {
                        Some(img) => {
                            let endpoint = RegistryEndpoint {
                                auth_base: self.endpoint.auth_base.clone(),
                                registry_base: self.endpoint.registry_base.clone(),
                            };
                            let image = ImageRef { name: img.name.clone(), tag: img.tag.clone() };
                            let (p, pa) = pull_image(endpoint, image);
                            self.pull = Some(p);
                            self.phase = SessionPhase::Materializing;
                            SessionAction::Pull { action: pa }
                        },
                        None => {
                            self.phase = SessionPhase::Isolating;
                            SessionAction::Isolate { op: IsolationOp::SwitchRoot }
                        },
                    }
                },
                _ => unreached(),
            },
            SessionEvent::Pulled { event: ev } => match self.phase {
                SessionPhase::Materializing => {
                    let mut p = match self.pull.take() {
                        Some(p) => p,
                        None => unreached(),
                    };
                    let ghost prp = p;
                    let pa = p.step(ev);
                    proof {
                        lemma_step_outcome(prp, ev, p, pa);
                    }
                    self.pull = Some(p);
                    match pa {
                        PullAction::Finish => {
                            self.phase = SessionPhase::Isolating;
                            SessionAction::Isolate { op: IsolationOp::SwitchRoot }
                        },
                        PullAction::Abort { error } => {
                            self.phase = SessionPhase::Failed;
                            SessionAction::FailAndExit { error }
                        },
                        other => SessionAction::Pull { action: other },
                    }
                },
                _ => unreached(),
            },
            SessionEvent::Isolated { ok } => match self.phase {
                SessionPhase::Isolating => match self.isolation.advance(ok) {
                    Ok(()) => match self.isolation.pending_op() {
                        Some(op) => SessionAction::Isolate { op },
                        None => {
                            self.phase = SessionPhase::Spawning;
                            SessionAction::Spawn {
                                command: self.command.clone(),
                                args: clone_strings(&self.args),
                            }
                        },
                    },
                    Err(e) => {
                        self.phase = SessionPhase::Failed;
                        SessionAction::FailAndExit { error: e }
                    },
                },
                _ => unreached(),
            },
            SessionEvent::Spawned { ok, stdout, stderr, code } => match self.phase {
                SessionPhase::Spawning => {
                    if ok {
                        self.phase = SessionPhase::Finished;
                        SessionAction::EmitAndExit { result: execution_result(stdout, stderr, code) }
                    } else {
                        self.phase = SessionPhase::Failed;
                        SessionAction::FailAndExit {
                            error: RunError::SpawnError {
                                command: self.command.clone(),
                                args: clone_strings(&self.args),
                            },
                        }
                    }
                },
                _ => unreached(),
            },
        }
    }
}

/// Law: isolation never begins before materialization has finished. Whenever
/// a step hands out an `Isolate` action, either no image source was given,
/// or the pull has completed every layer — reordering would leave the
/// process unable to see the host filesystem while layers were still owed.
pub proof fn lemma_isolation_only_after_materialization(
    pre: RunSession,
    event: SessionEvent,
    post: RunSession,
    action: SessionAction,
)
    requires
        pre.wf(),
        pre.in_progress(),
        session_step_post(pre, event, post, action),
    ensures
        action is Isolate ==> post.materialized(),
{
}

/// Law: a session step ends the run exactly when it says so — an error exit
/// is handed out if and only if the run is now failed, the output-and-exit
/// action if and only if it finished — and a finished or failed run accepts
/// no further event. No partial success is ever reported as success.
pub proof fn lemma_session_outcome(
    pre: RunSession,
    event: SessionEvent,
    post: RunSession,
    action: SessionAction,
)
    requires
        pre.wf(),
        pre.in_progress(),
        session_step_post(pre, event, post, action),
    ensures
        action is FailAndExit <==> post.phase is Failed,
        action is EmitAndExit <==> post.phase is Finished,
        post.phase is Failed || post.phase is Finished ==> !post.in_progress(),
{
}

} // verus!
