//! Running a script once: the command line of the child, and the report on
//! how it ended.

use vstd::prelude::*;
use vstd::string::StringExecFns;
use crate::boundary::decode_lossy;
use crate::boundary::lossy_text;
use crate::path::Platform;
use crate::path::project_root;
use crate::path::project_root_of;
use crate::path::resolve;
use crate::path::resolved;
use crate::text::decimal_text;
use crate::text::render_decimal;

verus! {

/// The exit code that is reported where the child left none, as when a
/// signal ended it.
pub const NO_EXIT_CODE: i32 = -1;

/// What is started: a script under an interpreter, or the bot.
#[derive(Clone, Copy, Debug, PartialEq, Eq)]
pub enum Worker {
    /// A Python script, run by `python3`.
    Python,
    /// A JavaScript script, run by `bun`.
    JavaScript,
    /// The bot's entry script, run by `bun`.
    Bot,
}

/// What becomes of a stream of the child.
#[derive(Clone, Copy, Debug, PartialEq, Eq)]
pub enum StreamMode {
    /// The stream is piped to the parent, which reads it.
    Captured,
    /// The stream stays the parent's own: the child writes to the console.
    Inherited,
}

/// The command line of a child process and where it runs.
#[derive(Debug, PartialEq, Eq)]
pub struct CommandPlan {
    pub program: String,
    pub args: Vec<String>,
    pub working_dir: String,
    pub stdout: StreamMode,
    pub stderr: StreamMode,
}

/// A `CommandPlan` as plain values.
pub struct CommandPlanView {
    pub program: Seq<char>,
    pub args: Seq<Seq<char>>,
    pub working_dir: Seq<char>,
    pub stdout: StreamMode,
    pub stderr: StreamMode,
}

impl View for CommandPlan {
    type V = CommandPlanView;

    open spec fn view(&self) -> CommandPlanView {
        CommandPlanView {
            program: self.program@,
            args: self.args.deep_view(),
            working_dir: self.working_dir@,
            stdout: self.stdout,
            stderr: self.stderr,
        }
    }
}

/// Why a request failed.
#[derive(Debug, PartialEq, Eq)]
pub enum BridgeError {
    /// The working directory could not be determined.
    PathResolution { reason: String },
    /// The resolved script is not on disk; nothing was spawned.
    ScriptNotFound { worker: Worker, path: String },
    /// The operating system could not create the process.
    Spawn { worker: Worker, reason: String },
    /// The process ran and did not exit with zero.
    Execution { code: Option<i32>, stderr: String },
}

/// A `BridgeError` as plain values.
pub enum BridgeErrorView {
    PathResolution { reason: Seq<char> },
    ScriptNotFound { worker: Worker, path: Seq<char> },
    Spawn { worker: Worker, reason: Seq<char> },
    Execution { code: Option<i32>, stderr: Seq<char> },
}

impl View for BridgeError {
    type V = BridgeErrorView;

    open spec fn view(&self) -> BridgeErrorView {
        match self {
            BridgeError::PathResolution { reason } => BridgeErrorView::PathResolution {
                reason: reason@,
            },
            BridgeError::ScriptNotFound { worker, path } => BridgeErrorView::ScriptNotFound {
                worker: *worker,
                path: path@,
            },
            BridgeError::Spawn { worker, reason } => BridgeErrorView::Spawn {
                worker: *worker,
                reason: reason@,
            },
            BridgeError::Execution { code, stderr } => BridgeErrorView::Execution {
                code: *code,
                stderr: stderr@,
            },
        }
    }
}

/// What a child has left behind when it has exited.
#[derive(Debug, PartialEq, Eq)]
pub struct Finished {
    /// The exit code, or `None` where the child left none.
    pub code: Option<i32>,
    pub stdout: Vec<u8>,
    pub stderr: Vec<u8>,
}

/// How an attempt to run a child has ended.
#[derive(Debug, PartialEq, Eq)]
pub enum RunOutcome {
    /// The operating system could not create the process.
    NotSpawned { reason: String },
    /// The process ran and has exited.
    Exited(Finished),
}

/// The terminal outcome of a one-shot run: the report of a success, or why
/// the run failed.
pub type ScriptResult = Result<String, BridgeError>;

/// The program that runs `worker`.
pub open spec fn program_of(worker: Worker) -> Seq<char> {
    match worker {
        Worker::Python => "python3"@,
        Worker::JavaScript => "bun"@,
        Worker::Bot => "bun"@,
    }
}

/// How the report of a missing script begins.
pub open spec fn not_found_prefix(worker: Worker) -> Seq<char> {
    match worker {
        Worker::Python => "Python script not found: "@,
        Worker::JavaScript => "JavaScript script not found: "@,
        Worker::Bot => "Bot starter script not found: "@,
    }
}

/// How the report of a failed spawn begins.
pub open spec fn spawn_failure_prefix(worker: Worker) -> Seq<char> {
    match worker {
        Worker::Python => "Failed to execute python script: "@,
        Worker::JavaScript => "Failed to execute javascript script with bun: "@,
        Worker::Bot => "Failed to spawn bot process: "@,
    }
}

/// The exit code as it is reported.
pub open spec fn reported_code(code: Option<i32>) -> int {
    match code {
        Some(c) => c as int,
        None => NO_EXIT_CODE as int,
    }
}

/// The description of a failure, as the caller reads it.
pub open spec fn error_message(error: BridgeErrorView) -> Seq<char> {
    match error {
        BridgeErrorView::PathResolution { reason } => "Failed to get current directory: "@
            + reason,
        BridgeErrorView::ScriptNotFound { worker, path } => not_found_prefix(worker) + path,
        BridgeErrorView::Spawn { worker, reason } => spawn_failure_prefix(worker) + reason,
        BridgeErrorView::Execution { code, stderr } => "Script execution failed with exit code: "@
            + decimal_text(reported_code(code)) + "\nError: "@ + stderr,
    }
}

/// The report of a run that exited with zero: both captured streams, each
/// under its label.
pub open spec fn success_report(stdout: Seq<char>, stderr: Seq<char>) -> Seq<char> {
    "Script executed successfully!\nOutput: "@ + stdout + "\nErrors: "@ + stderr
}

/// Whether a child that left `code` has succeeded.
pub open spec fn exited_cleanly(code: Option<i32>) -> bool {
    code == Some(0i32)
}

/// The command line of a one-shot run: the interpreter, then the script,
/// then the caller's arguments in their order, in the project root, with
/// both streams captured.
pub open spec fn run_plan(
    worker: Worker,
    script: Seq<char>,
    args: Seq<Seq<char>>,
    root: Seq<char>,
) -> CommandPlanView {
    CommandPlanView {
        program: program_of(worker),
        args: seq![script] + args,
        working_dir: root,
        stdout: StreamMode::Captured,
        stderr: StreamMode::Captured,
    }
}

/// What a one-shot request comes to before anything is spawned.
pub open spec fn prepared(
    worker: Worker,
    raw_script: Seq<char>,
    args: Seq<Seq<char>>,
    cwd: Seq<char>,
    platform: Platform,
    script_present: bool,
) -> Result<CommandPlanView, BridgeErrorView> {
    let script = resolved(raw_script, cwd, platform);
    if script_present {
        Ok(run_plan(worker, script, args, project_root(cwd, platform)))
    } else {
        Err(BridgeErrorView::ScriptNotFound { worker, path: script })
    }
}

/// What a finished run comes to, given the text of its two streams.
pub open spec fn run_result(code: Option<i32>, stdout: Seq<char>, stderr: Seq<char>) -> Result<
    Seq<char>,
    BridgeErrorView,
> {
    if exited_cleanly(code) {
        Ok(success_report(stdout, stderr))
    } else {
        Err(BridgeErrorView::Execution { code, stderr })
    }
}

/// What an attempt to run `worker` comes to: a failed spawn is reported as
/// such, and a finished run by its exit code and the text of its streams.
pub open spec fn run_conclusion(worker: Worker, outcome: RunOutcome) -> Result<
    Seq<char>,
    BridgeErrorView,
> {
    match outcome {
        RunOutcome::NotSpawned { reason } => Err(
            BridgeErrorView::Spawn { worker, reason: reason@ },
        ),
        RunOutcome::Exited(finished) => run_result(
            finished.code,
            lossy_text(finished.stdout@),
            lossy_text(finished.stderr@),
        ),
    }
}

/// Whether `result` is `expected`, each side taken as plain values.
pub open spec fn same_plan(
    result: Result<CommandPlan, BridgeError>,
    expected: Result<CommandPlanView, BridgeErrorView>,
) -> bool {
    match result {
        Ok(plan) => expected == Ok::<CommandPlanView, BridgeErrorView>(plan@),
        Err(error) => expected == Err::<CommandPlanView, BridgeErrorView>(error@),
    }
}

/// Whether `result` is `expected`, each side taken as plain values.
pub open spec fn same_report(
    result: ScriptResult,
    expected: Result<Seq<char>, BridgeErrorView>,
) -> bool {
    match result {
        Ok(report) => expected == Ok::<Seq<char>, BridgeErrorView>(report@),
        Err(error) => expected == Err::<Seq<char>, BridgeErrorView>(error@),
    }
}

impl Worker {
    /// The program that runs this worker.
    pub fn program(self) -> (r: &'static str)
        ensures
            r@ == program_of(self),
    {
        match self {
            Worker::Python => "python3",
            Worker::JavaScript => "bun",
            Worker::Bot => "bun",
        }
    }
}

impl BridgeError {
    /// The description of this failure, as the caller reads it.
    pub fn message(&self) -> (r: String)
        ensures
            r@ == error_message(self@),
    {
        match self {
            BridgeError::PathResolution { reason } => {
                let mut out = String::from_str("Failed to get current directory: ");
                out.append(reason.as_str());
                out
            },
            BridgeError::ScriptNotFound { worker, path } => {
                let mut out = String::from_str(
                    match worker {
                        Worker::Python => "Python script not found: ",
                        Worker::JavaScript => "JavaScript script not found: ",
                        Worker::Bot => "Bot starter script not found: ",
                    },
                );
                out.append(path.as_str());
                out
            },
            BridgeError::Spawn { worker, reason } => {
                let mut out = String::from_str(
                    match worker {
                        Worker::Python => "Failed to execute python script: ",
                        Worker::JavaScript => "Failed to execute javascript script with bun: ",
                        Worker::Bot => "Failed to spawn bot process: ",
                    },
                );
                out.append(reason.as_str());
                out
            },
            BridgeError::Execution { code, stderr } => {
                let shown: i32 = match code {
                    Some(c) => *c,
                    None => NO_EXIT_CODE,
                };
                let mut out = String::from_str("Script execution failed with exit code: ");
                let digits = render_decimal(shown);
                out.append(digits.as_str());
                out.append("\nError: ");
                out.append(stderr.as_str());
                out
            },
        }
    }
}

/// Lays out the command line of a one-shot run of `script`, which is
/// already resolved, in the project root `root`.
pub fn plan_run(worker: Worker, script: &str, args: &Vec<String>, root: &str) -> (r: CommandPlan)
    ensures
        r@ == run_plan(worker, script@, args.deep_view(), root@),
{
    let mut all: Vec<String> = Vec::new();
    all.push(String::from_str(script));
    let mut i: usize = 0;
    while i < args.len()
        invariant
            i <= args.len(),
            all.len() == i + 1,
            all[0]@ == script@,
            forall|j: int| 0 <= j < i ==> all[j + 1]@ == args[j]@,
        decreases args.len() - i,
    {
        all.push(args[i].clone());
        i = i + 1;
    }
    assert(all.deep_view() =~= seq![script@] + args.deep_view());
    CommandPlan {
        program: String::from_str(worker.program()),
        args: all,
        working_dir: String::from_str(root),
        stdout: StreamMode::Captured,
        stderr: StreamMode::Captured,
    }
}

/// Decides a one-shot request before anything is spawned.
///
/// The script's raw path is resolved from the working directory `cwd`;
/// `script_present` says whether the resolved path is on disk. A missing
/// script is reported and no command line is handed out. Otherwise the
/// child is the interpreter with the resolved script and `args`, in the
/// project root.
pub fn prepare_run(
    worker: Worker,
    raw_script: &str,
    args: &Vec<String>,
    cwd: &str,
    platform: Platform,
    script_present: bool,
) -> (r: Result<CommandPlan, BridgeError>)
    ensures
        same_plan(
            r,
            prepared(worker, raw_script@, args.deep_view(), cwd@, platform, script_present),
        ),
        r is Ok <==> script_present,
{
    let script = resolve(raw_script, cwd, platform);
    if script_present {
        let root = project_root_of(cwd, platform);
        Ok(plan_run(worker, script.as_str(), args, root.as_str()))
    } else {
        Err(BridgeError::ScriptNotFound { worker, path: script })
    }
}

/// Reports a finished run whose streams are already text: success with
/// both streams under their labels where the child exited with zero, and a
/// failure that carries the exit code and the error stream otherwise.
pub fn report_run(code: Option<i32>, stdout: &str, stderr: &str) -> (r: ScriptResult)
    ensures
        same_report(r, run_result(code, stdout@, stderr@)),
        r is Ok <==> code == Some(0i32),
{
    let clean = match code {
        Some(c) => c == 0,
        None => false,
    };
    if clean {
        let mut out = String::from_str("Script executed successfully!\nOutput: ");
        out.append(stdout);
        out.append("\nErrors: ");
        out.append(stderr);
        Ok(out)
    } else {
        Err(BridgeError::Execution { code, stderr: String::from_str(stderr) })
    }
}

/// Reports how an attempt to run `worker` has ended. A process that could
/// not be created is a spawn failure, told apart from a process that ran
/// and failed. The bytes captured from a process that ran are read as
/// text; bytes that are not UTF-8 are replaced, never refused.
pub fn conclude_run(worker: Worker, outcome: RunOutcome) -> (r: ScriptResult)
    ensures
        same_report(r, run_conclusion(worker, outcome)),
        r is Ok <==> (outcome matches RunOutcome::Exited(finished) && finished.code == Some(0i32)),
{
    match outcome {
        RunOutcome::NotSpawned { reason } => Err(BridgeError::Spawn { worker, reason }),
        RunOutcome::Exited(finished) => {
            let stdout = decode_lossy(finished.stdout.as_slice());
            let stderr = decode_lossy(finished.stderr.as_slice());
            report_run(finished.code, stdout.as_str(), stderr.as_str())
        },
    }
}

} // verus!
