//! The supervisor of a streaming process.
//!
//! A supervisor decides; it spawns nothing and publishes nothing itself.
//! The caller performs each action that a step hands out and reports what
//! happened as the next event. The line reader and the waiter report
//! independently of each other, in any order.

use vstd::prelude::*;
use vstd::string::StringExecFns;
use crate::event::event_of_line;
use crate::event::interpret_line;
use crate::event::BotEvent;
use crate::event::BotEventView;
use crate::event::EVENT_CHANNEL;
use crate::path::project_root;
use crate::path::project_root_of;
use crate::path::resolve;
use crate::path::resolved;
use crate::path::Platform;
use crate::runner::program_of;
use crate::runner::BridgeError;
use crate::runner::BridgeErrorView;
use crate::runner::CommandPlan;
use crate::runner::CommandPlanView;
use crate::runner::StreamMode;
use crate::runner::Worker;

verus! {

/// The bot's entry script, relative to the project root.
pub const BOT_SCRIPT: &'static str = "src/bots/bot_starter.ts";

/// Where a supervisor stands, as the design names it.
#[derive(Clone, Copy, Debug, PartialEq, Eq)]
pub enum Phase {
    Idle,
    Spawning,
    Streaming,
    Completed,
    Failed,
}

/// What the waiter knows of the child.
#[derive(Clone, Copy, Debug, PartialEq, Eq)]
pub enum ExitWatch {
    /// The child has not been reaped yet.
    Pending,
    /// The child has exited; `code` is `None` where it left no exit code.
    Reaped { code: Option<i32> },
}

/// What a supervisor remembers between two events.
#[derive(Clone, Copy, Debug, PartialEq, Eq)]
pub enum Stage {
    /// Nothing was requested yet.
    Idle,
    /// The script is there and the spawn was handed out.
    Spawning,
    /// The child was spawned. The reader and the waiter each keep their own
    /// record: neither waits for the other.
    Running { reader_open: bool, exit: ExitWatch },
    /// The request was turned down before any child ran.
    Rejected,
}

/// What the caller reports to a supervisor.
#[derive(Debug, PartialEq, Eq)]
pub enum Event {
    /// A start was requested; `script_present` says whether the bot's entry
    /// script is on disk.
    Start { script_present: bool },
    /// The operating system could not create the process.
    SpawnFailed { reason: String },
    /// The process was created.
    Spawned,
    /// The reader has read one line of the child's standard output.
    Line { text: String },
    /// The reader has reached the end of the stream.
    StreamClosed,
    /// The waiter has reaped the child.
    Exited { code: Option<i32> },
}

/// An `Event` as plain values.
pub enum EventView {
    Start { script_present: bool },
    SpawnFailed { reason: Seq<char> },
    Spawned,
    Line { text: Seq<char> },
    StreamClosed,
    Exited { code: Option<i32> },
}

impl View for Event {
    type V = EventView;

    open spec fn view(&self) -> EventView {
        match self {
            Event::Start { script_present } => EventView::Start { script_present: *script_present },
            Event::SpawnFailed { reason } => EventView::SpawnFailed { reason: reason@ },
            Event::Spawned => EventView::Spawned,
            Event::Line { text } => EventView::Line { text: text@ },
            Event::StreamClosed => EventView::StreamClosed,
            Event::Exited { code } => EventView::Exited { code: *code },
        }
    }
}

/// What a supervisor asks of the caller.
#[derive(Debug, PartialEq, Eq)]
pub enum Action {
    /// Spawn this child, then report `Spawned` or `SpawnFailed`.
    Spawn(CommandPlan),
    /// Return this failure to the caller of the start.
    Reject(BridgeError),
    /// Return this acknowledgment to the caller of the start, and let the
    /// reader and the waiter run.
    Acknowledge { message: String },
    /// Publish this event on this channel.
    Publish { channel: String, event: BotEvent },
    /// Do nothing.
    Nothing,
}

/// An `Action` as plain values.
pub enum ActionView {
    Spawn(CommandPlanView),
    Reject(BridgeErrorView),
    Acknowledge { message: Seq<char> },
    Publish { channel: Seq<char>, event: BotEventView },
    Nothing,
}

impl View for Action {
    type V = ActionView;

    open spec fn view(&self) -> ActionView {
        match self {
            Action::Spawn(plan) => ActionView::Spawn(plan@),
            Action::Reject(error) => ActionView::Reject(error@),
            Action::Acknowledge { message } => ActionView::Acknowledge { message: message@ },
            Action::Publish { channel, event } => ActionView::Publish {
                channel: channel@,
                event: event@,
            },
            Action::Nothing => ActionView::Nothing,
        }
    }
}

/// The supervisor of one streaming process.
#[derive(Debug)]
pub struct Supervisor {
    stage: Stage,
    label: String,
    root: String,
    script: String,
}

/// A `Supervisor` as plain values.
pub struct SupervisorView {
    pub stage: Stage,
    /// The label that every published event is tagged with.
    pub label: Seq<char>,
    /// The project root, in which the child runs.
    pub root: Seq<char>,
    /// The resolved path of the bot's entry script.
    pub script: Seq<char>,
}

impl View for Supervisor {
    type V = SupervisorView;

    closed spec fn view(&self) -> SupervisorView {
        SupervisorView {
            stage: self.stage,
            label: self.label@,
            root: self.root@,
            script: self.script@,
        }
    }
}

/// Whether the reader of a spawned child still has lines to report.
pub open spec fn reading(stage: Stage) -> bool {
    stage matches Stage::Running { reader_open, .. } && reader_open
}

/// Whether nothing is left to happen: the request was turned down, or the
/// child is reaped and its stream is closed, so that both of its tasks are
/// done.
pub open spec fn settled(stage: Stage) -> bool {
    stage is Rejected || (stage matches Stage::Running { reader_open, exit } && !reader_open
        && exit is Reaped)
}

/// The phase that a stage shows. A running child has failed as soon as it
/// is reaped with anything but exit code zero, and has completed once it is
/// reaped with zero and its stream is closed.
pub open spec fn phase_of(stage: Stage) -> Phase {
    match stage {
        Stage::Idle => Phase::Idle,
        Stage::Spawning => Phase::Spawning,
        Stage::Rejected => Phase::Failed,
        Stage::Running { reader_open, exit } => match exit {
            ExitWatch::Pending => Phase::Streaming,
            ExitWatch::Reaped { code } => if code != Some(0i32) {
                Phase::Failed
            } else if reader_open {
                Phase::Streaming
            } else {
                Phase::Completed
            },
        },
    }
}

/// Whether a supervisor may pass from phase `from` to phase `to` in one
/// step, staying where it is included.
pub open spec fn may_follow(from: Phase, to: Phase) -> bool {
    from == to || match from {
        Phase::Idle => to == Phase::Spawning || to == Phase::Failed,
        Phase::Spawning => to == Phase::Streaming || to == Phase::Failed,
        Phase::Streaming => to == Phase::Completed || to == Phase::Failed,
        Phase::Completed => false,
        Phase::Failed => false,
    }
}

/// A supervisor that nothing was asked of yet, for a process that works
/// in `cwd`.
pub open spec fn fresh(label: Seq<char>, cwd: Seq<char>, platform: Platform) -> SupervisorView {
    SupervisorView {
        stage: Stage::Idle,
        label,
        root: project_root(cwd, platform),
        script: resolved(BOT_SCRIPT@, cwd, platform),
    }
}

/// The child of a supervisor: `bun` with the entry script and the label, in
/// the project root, its output piped and its error stream left on the
/// console.
pub open spec fn bot_plan(s: SupervisorView) -> CommandPlanView {
    CommandPlanView {
        program: program_of(Worker::Bot),
        args: seq![s.script, s.label],
        working_dir: s.root,
        stdout: StreamMode::Captured,
        stderr: StreamMode::Inherited,
    }
}

/// What the caller of a start is told once the child is spawned.
pub open spec fn acknowledgment(label: Seq<char>) -> Seq<char> {
    "Bot '"@ + label + "' started successfully"@
}

/// `s` at another stage.
pub open spec fn at_stage(s: SupervisorView, stage: Stage) -> SupervisorView {
    SupervisorView { stage, label: s.label, root: s.root, script: s.script }
}

/// What a line asks of the caller, given the event that it decodes to.
pub open spec fn line_action(publication: Option<BotEventView>) -> ActionView {
    match publication {
        Some(event) => ActionView::Publish { channel: EVENT_CHANNEL@, event },
        None => ActionView::Nothing,
    }
}

/// One step of a supervisor, given the event that a line decodes to: the
/// supervisor after the step and what it asks of the caller. An event that
/// does not belong to the stage changes nothing.
pub open spec fn transition_with(
    s: SupervisorView,
    event: EventView,
    publication: Option<BotEventView>,
) -> (SupervisorView, ActionView) {
    match s.stage {
        Stage::Idle => match event {
            EventView::Start { script_present } => if script_present {
                (at_stage(s, Stage::Spawning), ActionView::Spawn(bot_plan(s)))
            } else {
                (
                    at_stage(s, Stage::Rejected),
                    ActionView::Reject(
                        BridgeErrorView::ScriptNotFound { worker: Worker::Bot, path: s.script },
                    ),
                )
            },
            _ => (s, ActionView::Nothing),
        },
        Stage::Spawning => match event {
            EventView::Spawned => (
                at_stage(s, Stage::Running { reader_open: true, exit: ExitWatch::Pending }),
                ActionView::Acknowledge { message: acknowledgment(s.label) },
            ),
            EventView::SpawnFailed { reason } => (
                at_stage(s, Stage::Rejected),
                ActionView::Reject(BridgeErrorView::Spawn { worker: Worker::Bot, reason }),
            ),
            _ => (s, ActionView::Nothing),
        },
        Stage::Running { reader_open, exit } => match event {
            EventView::Line { text } => if reader_open {
                (s, line_action(publication))
            } else {
                (s, ActionView::Nothing)
            },
            EventView::StreamClosed => (
                at_stage(s, Stage::Running { reader_open: false, exit }),
                ActionView::Nothing,
            ),
            EventView::Exited { code } => match exit {
                ExitWatch::Pending => (
                    at_stage(s, Stage::Running { reader_open, exit: ExitWatch::Reaped { code } }),
                    ActionView::Nothing,
                ),
                ExitWatch::Reaped { .. } => (s, ActionView::Nothing),
            },
            _ => (s, ActionView::Nothing),
        },
        Stage::Rejected => (s, ActionView::Nothing),
    }
}

/// The event that `event` publishes where it is a line read for `label`.
pub open spec fn publication_of(label: Seq<char>, event: EventView) -> Option<BotEventView> {
    match event {
        EventView::Line { text } => event_of_line(label, text),
        _ => None,
    }
}

/// One step of a supervisor.
pub open spec fn transition(s: SupervisorView, event: EventView) -> (SupervisorView, ActionView) {
    transition_with(s, event, publication_of(s.label, event))
}

/// What the caller is asked, step by step, while `events` arrive in their
/// order at a supervisor that stands at `s`.
pub open spec fn run_actions(s: SupervisorView, events: Seq<EventView>) -> Seq<ActionView>
    decreases events.len(),
{
    if events.len() == 0 {
        Seq::empty()
    } else {
        seq![transition(s, events[0]).1] + run_actions(
            transition(s, events[0]).0,
            events.drop_first(),
        )
    }
}

/// Whether `action` acknowledges a start.
pub open spec fn is_acknowledgment(action: ActionView) -> bool {
    action is Acknowledge
}

/// The events that `actions` publish, in their order.
pub open spec fn published(actions: Seq<ActionView>) -> Seq<BotEventView>
    decreases actions.len(),
{
    if actions.len() == 0 {
        Seq::empty()
    } else {
        match actions[0] {
            ActionView::Publish { channel, event } => seq![event] + published(
                actions.drop_first(),
            ),
            _ => published(actions.drop_first()),
        }
    }
}

/// The events that the lines among `events` decode to for `label`, in the
/// order of the lines.
pub open spec fn decoded_lines(label: Seq<char>, events: Seq<EventView>) -> Seq<BotEventView>
    decreases events.len(),
{
    if events.len() == 0 {
        Seq::empty()
    } else {
        match publication_of(label, events[0]) {
            Some(event) => seq![event] + decoded_lines(label, events.drop_first()),
            None => decoded_lines(label, events.drop_first()),
        }
    }
}

/// Whether the stream is still open after `events`: none of them closes it.
pub open spec fn stream_stays_open(events: Seq<EventView>) -> bool {
    forall|i: int| 0 <= i < events.len() ==> !(#[trigger] events[i] is StreamClosed)
}

/// The decoded event as plain values, where there is one.
pub open spec fn publication_view(publication: Option<BotEvent>) -> Option<BotEventView> {
    match publication {
        Some(event) => Some(event@),
        None => None,
    }
}

/// A step never moves a supervisor against the order of its phases, and it
/// keeps the label, the project root and the script.
pub proof fn lemma_step_follows_phase_order(
    s: SupervisorView,
    event: EventView,
    publication: Option<BotEventView>,
)
    ensures
        may_follow(phase_of(s.stage), phase_of(transition_with(s, event, publication).0.stage)),
        transition_with(s, event, publication).0 == at_stage(
            s,
            transition_with(s, event, publication).0.stage,
        ),
{
}

/// An event is published only while the reader of a spawned child is open,
/// and a start is acknowledged only in answer to the spawn.
pub proof fn lemma_actions_belong_to_stages(
    s: SupervisorView,
    event: EventView,
    publication: Option<BotEventView>,
)
    ensures
        transition_with(s, event, publication).1 is Publish ==> reading(s.stage) && event is Line,
        transition_with(s, event, publication).1 is Acknowledge <==> s.stage is Spawning && event
            is Spawned,
        transition_with(s, event, publication).1 is Spawn <==> s.stage is Idle && event
            == (EventView::Start { script_present: true }),
        transition_with(s, event, publication).1 is Reject <==> (s.stage is Idle && event
            == (EventView::Start { script_present: false })) || (s.stage is Spawning && event
            is SpawnFailed),
{
}

/// A settled supervisor stays as it is and asks for nothing, whatever is
/// reported to it.
pub proof fn lemma_settled_is_final(
    s: SupervisorView,
    event: EventView,
    publication: Option<BotEventView>,
)
    requires
        settled(s.stage),
    ensures
        transition_with(s, event, publication) == (s, ActionView::Nothing),
        phase_of(s.stage) is Completed || phase_of(s.stage) is Failed,
{
}

/// One action answers each event.
pub proof fn lemma_run_actions_len(s: SupervisorView, events: Seq<EventView>)
    ensures
        run_actions(s, events).len() == events.len(),
    decreases events.len(),
{
    if events.len() > 0 {
        lemma_run_actions_len(transition(s, events[0]).0, events.drop_first());
    }
}

/// Whatever the events and wherever the supervisor stands: an event is
/// published only if the child was already running at the outset, or a
/// start was acknowledged at an earlier step.
pub proof fn lemma_publish_needs_running(s: SupervisorView, events: Seq<EventView>, i: int)
    requires
        0 <= i < events.len(),
        run_actions(s, events)[i] is Publish,
    ensures
        s.stage is Running || exists|j: int|
            0 <= j < i && is_acknowledgment(#[trigger] run_actions(s, events)[j]),
    decreases events.len(),
{
    let next = transition(s, events[0]).0;
    let rest = events.drop_first();
    let trace = run_actions(s, events);
    lemma_run_actions_len(next, rest);
    if i > 0 {
        assert(trace[i] == run_actions(next, rest)[i - 1]);
        lemma_publish_needs_running(next, rest, i - 1);
        if next.stage is Running {
            if !(s.stage is Running) {
                assert(is_acknowledgment(trace[0]));
            }
        } else {
            let j = choose|j: int|
                0 <= j < i - 1 && is_acknowledgment(#[trigger] run_actions(next, rest)[j]);
            assert(trace[j + 1] == run_actions(next, rest)[j]);
            assert(is_acknowledgment(trace[j + 1]));
        }
    }
}

/// From a supervisor that nothing was asked of yet, every published event
/// comes after the acknowledgment of the start: the caller has its answer
/// before the subscriber sees the first line.
pub proof fn lemma_publish_follows_acknowledgment(
    s: SupervisorView,
    events: Seq<EventView>,
    i: int,
)
    requires
        s.stage is Idle,
        0 <= i < events.len(),
        run_actions(s, events)[i] is Publish,
    ensures
        exists|j: int| 0 <= j < i && is_acknowledgment(#[trigger] run_actions(s, events)[j]),
{
    lemma_publish_needs_running(s, events, i);
}

/// While the reader's stream is open, the events published are exactly
/// those that the lines decode to, in the order in which the lines were
/// read; what the waiter reports in between changes nothing of it.
pub proof fn lemma_publications_keep_line_order(s: SupervisorView, events: Seq<EventView>)
    requires
        reading(s.stage),
        stream_stays_open(events),
    ensures
        published(run_actions(s, events)) == decoded_lines(s.label, events),
    decreases events.len(),
{
    if events.len() > 0 {
        let next = transition(s, events[0]).0;
        let rest = events.drop_first();
        let trace = run_actions(s, events);
        assert(!(events[0] is StreamClosed));
        assert forall|i: int| 0 <= i < rest.len() implies !(#[trigger] rest[i] is StreamClosed) by {
            assert(rest[i] == events[i + 1]);
        }
        lemma_publications_keep_line_order(next, rest);
        assert(trace.drop_first() =~= run_actions(next, rest));
    }
}

impl Supervisor {
    /// A supervisor for the bot labelled `label`, for a process that works
    /// in `cwd`. The bot's entry script is resolved against the project
    /// root; nothing is looked up on disk.
    pub fn new(label: &str, cwd: &str, platform: Platform) -> (r: Supervisor)
        ensures
            r@ == fresh(label@, cwd@, platform),
    {
        Supervisor {
            stage: Stage::Idle,
            label: String::from_str(label),
            root: project_root_of(cwd, platform),
            script: resolve(BOT_SCRIPT, cwd, platform),
        }
    }

    /// What this supervisor remembers.
    pub fn stage(&self) -> (r: Stage)
        ensures
            r == self@.stage,
    {
        self.stage
    }

    /// Where this supervisor stands.
    pub fn phase(&self) -> (r: Phase)
        ensures
            r == phase_of(self@.stage),
    {
        match self.stage {
            Stage::Idle => Phase::Idle,
            Stage::Spawning => Phase::Spawning,
            Stage::Rejected => Phase::Failed,
            Stage::Running { reader_open, exit } => match exit {
                ExitWatch::Pending => Phase::Streaming,
                ExitWatch::Reaped { code } => {
                    let clean = match code {
                        Some(c) => c == 0,
                        None => false,
                    };
                    if !clean {
                        Phase::Failed
                    } else if reader_open {
                        Phase::Streaming
                    } else {
                        Phase::Completed
                    }
                },
            },
        }
    }

    /// The label that published events are tagged with.
    pub fn label(&self) -> (r: &String)
        ensures
            r@ == self@.label,
    {
        &self.label
    }

    /// The project root, in which the child runs.
    pub fn root(&self) -> (r: &String)
        ensures
            r@ == self@.root,
    {
        &self.root
    }

    /// The resolved path of the bot's entry script. The caller looks it up
    /// on disk before it reports `Start`.
    pub fn script_path(&self) -> (r: &String)
        ensures
            r@ == self@.script,
    {
        &self.script
    }

    /// Whether the reader still has lines to report.
    pub fn is_reading(&self) -> (r: bool)
        ensures
            r == reading(self@.stage),
    {
        match self.stage {
            Stage::Running { reader_open, .. } => reader_open,
            _ => false,
        }
    }

    /// Whether nothing is left to happen for this supervisor.
    pub fn is_settled(&self) -> (r: bool)
        ensures
            r == settled(self@.stage),
    {
        match self.stage {
            Stage::Rejected => true,
            Stage::Running { reader_open, exit } => match exit {
                ExitWatch::Pending => false,
                ExitWatch::Reaped { .. } => !reader_open,
            },
            _ => false,
        }
    }

    fn plan(&self) -> (r: CommandPlan)
        ensures
            r@ == bot_plan(self@),
    {
        let mut args: Vec<String> = Vec::new();
        args.push(self.script.clone());
        args.push(self.label.clone());
        assert(args.deep_view() =~= seq![self.script@, self.label@]);
        CommandPlan {
            program: String::from_str(Worker::Bot.program()),
            args,
            working_dir: self.root.clone(),
            stdout: StreamMode::Captured,
            stderr: StreamMode::Inherited,
        }
    }

    fn acknowledge(&self) -> (r: String)
        ensures
            r@ == acknowledgment(self@.label),
    {
        let mut message = String::from_str("Bot '");
        message.append(self.label.as_str());
        message.append("' started successfully");
        message
    }

    /// Takes one step on `event`, where `publication` is the event that the
    /// line decodes to, if `event` is a line and decodes. Returns what the
    /// caller is to do.
    pub fn advance(&mut self, event: Event, publication: Option<BotEvent>) -> (r: Action)
        ensures
            (final(self)@, r@) == transition_with(
                old(self)@,
                event@,
                publication_view(publication),
            ),
    {
        match self.stage {
            Stage::Idle => match event {
                Event::Start { script_present } => {
                    if script_present {
                        let plan = self.plan();
                        self.stage = Stage::Spawning;
                        Action::Spawn(plan)
                    } else {
                        self.stage = Stage::Rejected;
                        Action::Reject(
                            BridgeError::ScriptNotFound {
                                worker: Worker::Bot,
                                path: self.script.clone(),
                            },
                        )
                    }
                },
                _ => Action::Nothing,
            },
            Stage::Spawning => match event {
                Event::Spawned => {
                    let message = self.acknowledge();
                    self.stage = Stage::Running { reader_open: true, exit: ExitWatch::Pending };
                    Action::Acknowledge { message }
                },
                Event::SpawnFailed { reason } => {
                    self.stage = Stage::Rejected;
                    Action::Reject(BridgeError::Spawn { worker: Worker::Bot, reason })
                },
                _ => Action::Nothing,
            },
            Stage::Running { reader_open, exit } => match event {
                Event::Line { text } => {
                    if reader_open {
                        match publication {
                            Some(event) => Action::Publish {
                                channel: String::from_str(EVENT_CHANNEL),
                                event,
                            },
                            None => Action::Nothing,
                        }
                    } else {
                        Action::Nothing
                    }
                },
                Event::StreamClosed => {
                    self.stage = Stage::Running { reader_open: false, exit };
                    Action::Nothing
                },
                Event::Exited { code } => {
                    match exit {
                        ExitWatch::Pending => {
                            self.stage = Stage::Running {
                                reader_open,
                                exit: ExitWatch::Reaped { code },
                            };
                        },
                        ExitWatch::Reaped { .. } => {},
                    }
                    Action::Nothing
                },
                _ => Action::Nothing,
            },
            Stage::Rejected => Action::Nothing,
        }
    }

    /// Takes one step on `event` and returns what the caller is to do. A
    /// line is classified and decoded here; one that is debug output, or
    /// whose payload does not decode, asks nothing of the caller and is no
    /// error.
    pub fn step(&mut self, event: Event) -> (r: Action)
        ensures
            (final(self)@, r@) == transition(old(self)@, event@),
            may_follow(phase_of(old(self)@.stage), phase_of(final(self)@.stage)),
    {
        let publication = match &event {
            Event::Line { text } => {
                if self.is_reading() {
                    interpret_line(self.label.as_str(), text.as_str())
                } else {
                    None
                }
            },
            _ => None,
        };
        proof {
            lemma_step_follows_phase_order(
                self@,
                event@,
                publication_of(self@.label, event@),
            );
        }
        self.advance(event, publication)
    }
}

} // verus!
