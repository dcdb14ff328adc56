use vstd::prelude::*;
use crate::error::CoreError;

verus! {

/// Where one download run stands. A run reaches `Succeeded` or `Failed` once and stays there.
pub enum RunPhase {
    NotStarted,
    /// The worker is being started.
    Spawning,
    /// The worker's standard output is being read line by line.
    Streaming,
    /// The worker's standard output has closed; its exit is awaited.
    Draining,
    Succeeded,
    Failed,
}

/// What the caller observed of the worker.
pub enum WorkerEvent {
    Spawned,
    SpawnFailed(String),
    /// One line of standard output, in arrival order.
    Line(String),
    /// Standard output reached its end.
    OutputClosed,
    /// The worker exited; `stderr` is what it wrote to standard error.
    Exited { success: bool, stderr: String },
    /// Waiting for the worker's exit failed, for this reason.
    WaitFailed(String),
}

/// What the caller does next.
pub enum RunAction {
    /// Start the worker.
    Spawn,
    /// Read the next line of standard output.
    ReadLine,
    /// Forward this line as one progress notification at once, then read the next line.
    Emit(String),
    /// Wait for the worker to exit.
    AwaitExit,
    /// The run is over, with this result.
    Finish(Result<(), CoreError>),
    /// The event does not belong to the run's phase and changes nothing.
    Ignore,
}

/// The supervisor of one worker run.
pub struct DownloadRun {
    pub phase: RunPhase,
}

/// The run's transition: the new phase and the action, for one event.
pub open spec fn step_spec(p: RunPhase, e: WorkerEvent) -> (RunPhase, RunAction) {
    match (p, e) {
        (RunPhase::Spawning, WorkerEvent::Spawned) => (RunPhase::Streaming, RunAction::ReadLine),
        (RunPhase::Spawning, WorkerEvent::SpawnFailed(m)) =>
            (RunPhase::Failed, RunAction::Finish(Err(CoreError::WorkerSpawnFailed(m)))),
        (RunPhase::Streaming, WorkerEvent::Line(l)) => (RunPhase::Streaming, RunAction::Emit(l)),
        (RunPhase::Streaming, WorkerEvent::OutputClosed) => (RunPhase::Draining, RunAction::AwaitExit),
        (RunPhase::Draining, WorkerEvent::Exited { success, stderr }) => if success {
            (RunPhase::Succeeded, RunAction::Finish(Ok(())))
        } else {
            (RunPhase::Failed, RunAction::Finish(Err(CoreError::WorkerProcessFailed(stderr))))
        },
        (RunPhase::Draining, WorkerEvent::WaitFailed(m)) =>
            (RunPhase::Failed, RunAction::Finish(Err(CoreError::WorkerProcessFailed(m)))),
        (p, _) => (p, RunAction::Ignore),
    }
}

/// The phase reached and the actions taken, in order, over a sequence of events.
pub open spec fn run_spec(p: RunPhase, events: Seq<WorkerEvent>) -> (RunPhase, Seq<RunAction>)
    decreases events.len(),
{
    if events.len() == 0 {
        (p, Seq::empty())
    } else {
        let (q, a) = step_spec(p, events[0]);
        let (r, rest) = run_spec(q, events.drop_first());
        (r, seq![a] + rest)
    }
}

pub open spec fn line_events(lines: Seq<String>) -> Seq<WorkerEvent> {
    lines.map_values(|l: String| WorkerEvent::Line(l))
}

pub open spec fn emit_actions(lines: Seq<String>) -> Seq<RunAction> {
    lines.map_values(|l: String| RunAction::Emit(l))
}

/// What a worker that exited with `success` and `stderr` makes of the run.
pub open spec fn exit_result(success: bool, stderr: String) -> Result<(), CoreError> {
    if success {
        Ok(())
    } else {
        Err(CoreError::WorkerProcessFailed(stderr))
    }
}

impl DownloadRun {
    pub fn new() -> (r: DownloadRun)
        ensures
            r.phase == RunPhase::NotStarted,
    {
        DownloadRun { phase: RunPhase::NotStarted }
    }

    /// Begins the run: a run not yet started asks for the worker to be spawned.
    pub fn start(&mut self) -> (a: RunAction)
        ensures
            old(self).phase == RunPhase::NotStarted ==> final(self).phase == RunPhase::Spawning
                && a == RunAction::Spawn,
            old(self).phase != RunPhase::NotStarted ==> final(self).phase == old(self).phase
                && a == RunAction::Ignore,
    {
        match self.phase {
            RunPhase::NotStarted => {
                self.phase = RunPhase::Spawning;
                RunAction::Spawn
            },
            _ => RunAction::Ignore,
        }
    }

    /// Takes one event of the worker and says what to do next.
    pub fn step(&mut self, e: WorkerEvent) -> (a: RunAction)
        ensures
            (final(self).phase, a) == step_spec(old(self).phase, e),
    {
        let p = match self.phase {
            RunPhase::NotStarted => RunPhase::NotStarted,
            RunPhase::Spawning => RunPhase::Spawning,
            RunPhase::Streaming => RunPhase::Streaming,
            RunPhase::Draining => RunPhase::Draining,
            RunPhase::Succeeded => RunPhase::Succeeded,
            RunPhase::Failed => RunPhase::Failed,
        };
        let (q, a) = match (p, e) {
            (RunPhase::Spawning, WorkerEvent::Spawned) => (RunPhase::Streaming, RunAction::ReadLine),
            (RunPhase::Spawning, WorkerEvent::SpawnFailed(m)) =>
                (RunPhase::Failed, RunAction::Finish(Err(CoreError::WorkerSpawnFailed(m)))),
            (RunPhase::Streaming, WorkerEvent::Line(l)) => (RunPhase::Streaming, RunAction::Emit(l)),
            (RunPhase::Streaming, WorkerEvent::OutputClosed) => (RunPhase::Draining, RunAction::AwaitExit),
            (RunPhase::Draining, WorkerEvent::Exited { success, stderr }) => if success {
                (RunPhase::Succeeded, RunAction::Finish(Ok(())))
            } else {
                (RunPhase::Failed, RunAction::Finish(Err(CoreError::WorkerProcessFailed(stderr))))
            },
            (RunPhase::Draining, WorkerEvent::WaitFailed(m)) =>
                (RunPhase::Failed, RunAction::Finish(Err(CoreError::WorkerProcessFailed(m)))),
            (p, _) => (p, RunAction::Ignore),
        };
        self.phase = q;
        a
    }

    /// Whether the run has reached its result.
    pub fn is_finished(&self) -> (r: bool)
        ensures
            r == (self.phase == RunPhase::Succeeded || self.phase == RunPhase::Failed),
    {
        match self.phase {
            RunPhase::Succeeded | RunPhase::Failed => true,
            _ => false,
        }
    }
}

/// The arguments that run the worker script `script` on the configuration file `config_path`.
pub fn worker_args(script: &str, config_path: &str) -> (r: Vec<String>)
    ensures
        r@.map_values(|s: String| s@) == seq![script@, "--config"@, config_path@],
{
    let mut r: Vec<String> = Vec::new();
    r.push(String::from_str(script));
    r.push(String::from_str("--config"));
    r.push(String::from_str(config_path));
    assert(r@.map_values(|s: String| s@) =~= seq![script@, "--config"@, config_path@]);
    r
}

/// The message of a run that succeeded.
pub fn completion_message() -> (r: String)
    ensures
        r@ == "Download completed successfully"@,
{
    String::from_str("Download completed successfully")
}

/// Running over `a` and then `b` is running over `a + b`.
pub proof fn lemma_run_concat(p: RunPhase, a: Seq<WorkerEvent>, b: Seq<WorkerEvent>)
    ensures
        run_spec(p, a + b) == ({
            let (q, x) = run_spec(p, a);
            let (r, y) = run_spec(q, b);
            (r, x + y)
        }),
    decreases a.len(),
{
    if a.len() == 0 {
        assert(a + b =~= b);
        assert(Seq::<RunAction>::empty() + run_spec(p, b).1 =~= run_spec(p, b).1);
    } else {
        let (q, act) = step_spec(p, a[0]);
        assert((a + b).drop_first() =~= a.drop_first() + b);
        lemma_run_concat(q, a.drop_first(), b);
        let (q2, x2) = run_spec(q, a.drop_first());
        let (r, y) = run_spec(q2, b);
        assert(seq![act] + (x2 + y) =~= (seq![act] + x2) + y);
    }
}

/// While streaming, each line is forwarded as one notification, in order, and nothing else happens.
pub proof fn lemma_streaming_forwards_lines(lines: Seq<String>)
    ensures
        run_spec(RunPhase::Streaming, line_events(lines)) == (RunPhase::Streaming, emit_actions(lines)),
    decreases lines.len(),
{
    if lines.len() > 0 {
        assert(line_events(lines).drop_first() =~= line_events(lines.drop_first()));
        lemma_streaming_forwards_lines(lines.drop_first());
        assert(seq![RunAction::Emit(lines[0])] + emit_actions(lines.drop_first()) =~= emit_actions(lines));
    } else {
        assert(emit_actions(lines) =~= Seq::empty());
    }
}

/// A worker that starts, writes `lines` and exits gets exactly one notification
/// per line, in the order written, all of them before the run's single result;
/// an unsuccessful exit fails the run with the worker's standard error, and
/// the notifications already forwarded stay forwarded.
pub proof fn lemma_run_forwards_every_line(lines: Seq<String>, success: bool, stderr: String)
    ensures
        run_spec(
            RunPhase::Spawning,
            seq![WorkerEvent::Spawned] + line_events(lines) + seq![
                WorkerEvent::OutputClosed,
                WorkerEvent::Exited { success, stderr },
            ],
        ) == (
            if success { RunPhase::Succeeded } else { RunPhase::Failed },
            seq![RunAction::ReadLine] + emit_actions(lines) + seq![
                RunAction::AwaitExit,
                RunAction::Finish(exit_result(success, stderr)),
            ],
        ),
{
    let head = seq![WorkerEvent::Spawned];
    let mid = line_events(lines);
    let tail = seq![WorkerEvent::OutputClosed, WorkerEvent::Exited { success, stderr }];
    lemma_run_concat(RunPhase::Spawning, head + mid, tail);
    lemma_run_concat(RunPhase::Spawning, head, mid);
    lemma_streaming_forwards_lines(lines);
    assert(head.drop_first() =~= Seq::<WorkerEvent>::empty());
    assert(head[0] == WorkerEvent::Spawned);
    assert(run_spec(RunPhase::Streaming, head.drop_first()) == (RunPhase::Streaming, Seq::<RunAction>::empty()));
    assert(seq![RunAction::ReadLine] + Seq::<RunAction>::empty() =~= seq![RunAction::ReadLine]);
    assert(run_spec(RunPhase::Spawning, head) == (RunPhase::Streaming, seq![RunAction::ReadLine]));
    assert(tail.drop_first().drop_first() =~= Seq::<WorkerEvent>::empty());
    let fin = if success { RunPhase::Succeeded } else { RunPhase::Failed };
    let done = seq![RunAction::Finish(exit_result(success, stderr))];
    assert(tail.drop_first()[0] == WorkerEvent::Exited { success, stderr });
    assert(step_spec(RunPhase::Draining, tail.drop_first()[0]) == (fin, RunAction::Finish(exit_result(success, stderr))));
    assert(run_spec(fin, tail.drop_first().drop_first()) == (fin, Seq::<RunAction>::empty()));
    assert(done + Seq::<RunAction>::empty() =~= done);
    assert(seq![RunAction::AwaitExit] + done =~= seq![RunAction::AwaitExit, RunAction::Finish(exit_result(success, stderr))]);
    assert(run_spec(RunPhase::Draining, tail.drop_first()) == (fin, seq![RunAction::Finish(exit_result(success, stderr))]));
    assert(run_spec(RunPhase::Streaming, tail) == (fin, seq![RunAction::AwaitExit, RunAction::Finish(exit_result(success, stderr))]));
    assert(seq![RunAction::ReadLine] + emit_actions(lines) + seq![RunAction::AwaitExit, RunAction::Finish(exit_result(success, stderr))]
        =~= (seq![RunAction::ReadLine] + emit_actions(lines)) + seq![RunAction::AwaitExit, RunAction::Finish(exit_result(success, stderr))]);
}

} // verus!
