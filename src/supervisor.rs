//! The decisions of the process supervisor, as a state machine.
//!
//! The host side performs the process work (spawning, writing to the process
//! input, reading its output, polling whether it is alive) and hands each
//! observation to `Supervisor::step`, which answers with the actions to take.
use crate::events::{
    EventModel, MinecraftServerEvent, MinecraftServerEventType,
    MinecraftServerStopReasons, MinecraftServerTask, MinecraftServerWarning, StopModel, TaskModel,
};
use crate::parse::{classify_line, parse_line, LineModel, ParseOutput};
use crate::text::{escape_line, escaped};
use vstd::prelude::*;
use vstd::string::*;

verus! {

/// Reply code: the task was received and its first step done.
pub const REPLY_ACKNOWLEDGED: u8 = 0;

/// Reply code: the task was carried out.
pub const REPLY_COMPLETED: u8 = 100;

/// Reply code: the task could not be carried out.
pub const REPLY_FAILED: u8 = 101;

/// The text of the reply to a task that the current state does not take.
pub open spec fn rejection_text() -> Seq<char> {
    "task not accepted in the current state"@
}

/// The line that asks the server to shut down.
pub open spec fn stop_line() -> Seq<char> {
    "stop"@
}

/// What the process did when it was last polled.
#[derive(Debug, PartialEq, Eq)]
pub enum ProcessStatus {
    Running,
    Exited(Option<i32>),
    Failed(String),
}

/// One observation handed to the supervisor.
#[derive(Debug, PartialEq, Eq)]
pub enum SupervisorInput {
    /// The process was created; `stdio` tells whether its streams were taken.
    Spawned { stdio: bool },
    /// The process could not be created.
    SpawnFailed(String),
    /// A task arrived.
    Task(MinecraftServerTask),
    /// The requested write to the process input finished.
    Written(Result<(), String>),
    /// The process printed a line (for a custom server: the line parser's answer).
    Line(String),
    /// The process was polled.
    Polled(ProcessStatus),
}

/// One thing the supervisor asks the host to do.
#[derive(Debug, PartialEq, Eq)]
pub enum SupervisorAction {
    /// Write this line to the process input and report the outcome.
    Write(String),
    /// Answer the task that came in last.
    Reply(Result<u8, String>),
    /// Tell the task that started the graceful stop that the process is gone.
    CompleteStop,
    /// Hand this event to the host.
    Emit(MinecraftServerEvent),
    /// Block until the process exits, then report it.
    WaitForExit,
    /// Terminate the process.
    KillProcess,
    /// Terminate the auxiliary line parser process.
    KillLineParser,
}

/// Which task a write in flight belongs to.
#[derive(Clone, Copy, PartialEq, Eq, Structural, Debug)]
pub enum PendingWrite {
    StopCommand,
    Command,
}

#[derive(Debug, PartialEq, Eq)]
pub enum SupervisorState {
    /// The process is not yet created.
    Starting,
    /// The process runs with its streams taken.
    Running,
    /// A write for a task is in flight.
    Writing(PendingWrite),
    /// The stop line was written; waiting for the process to exit.
    Stopping,
    /// The process runs, but its streams could not be taken.
    Unsupervised,
    /// The process is over.
    Finished(MinecraftServerStopReasons),
}

pub enum ProcessStatusModel {
    Running,
    Exited(Option<i32>),
    Failed(Seq<char>),
}

pub enum InputModel {
    Spawned(bool),
    SpawnFailed(Seq<char>),
    Task(TaskModel),
    Written(Result<(), Seq<char>>),
    Line(Seq<char>),
    Polled(ProcessStatusModel),
}

pub enum ActionModel {
    Write(Seq<char>),
    Reply(Result<u8, Seq<char>>),
    CompleteStop,
    Emit(EventModel),
    WaitForExit,
    KillProcess,
    KillLineParser,
}

pub enum StateModel {
    Starting,
    Running,
    Writing(PendingWrite),
    Stopping,
    Unsupervised,
    Finished(StopModel),
}

impl View for ProcessStatus {
    type V = ProcessStatusModel;

    open spec fn view(&self) -> ProcessStatusModel {
        match self {
            ProcessStatus::Running => ProcessStatusModel::Running,
            ProcessStatus::Exited(c) => ProcessStatusModel::Exited(*c),
            ProcessStatus::Failed(e) => ProcessStatusModel::Failed(e@),
        }
    }
}

impl View for SupervisorInput {
    type V = InputModel;

    open spec fn view(&self) -> InputModel {
        match self {
            SupervisorInput::Spawned { stdio } => InputModel::Spawned(*stdio),
            SupervisorInput::SpawnFailed(e) => InputModel::SpawnFailed(e@),
            SupervisorInput::Task(t) => InputModel::Task(t@),
            SupervisorInput::Written(Ok(())) => InputModel::Written(Ok(())),
            SupervisorInput::Written(Err(e)) => InputModel::Written(Err(e@)),
            SupervisorInput::Line(l) => InputModel::Line(l@),
            SupervisorInput::Polled(p) => InputModel::Polled(p@),
        }
    }
}

impl View for SupervisorAction {
    type V = ActionModel;

    open spec fn view(&self) -> ActionModel {
        match self {
            SupervisorAction::Write(l) => ActionModel::Write(l@),
            SupervisorAction::Reply(Ok(c)) => ActionModel::Reply(Ok(*c)),
            SupervisorAction::Reply(Err(e)) => ActionModel::Reply(Err(e@)),
            SupervisorAction::CompleteStop => ActionModel::CompleteStop,
            SupervisorAction::Emit(e) => ActionModel::Emit(e@),
            SupervisorAction::WaitForExit => ActionModel::WaitForExit,
            SupervisorAction::KillProcess => ActionModel::KillProcess,
            SupervisorAction::KillLineParser => ActionModel::KillLineParser,
        }
    }
}

impl View for SupervisorState {
    type V = StateModel;

    open spec fn view(&self) -> StateModel {
        match self {
            SupervisorState::Starting => StateModel::Starting,
            SupervisorState::Running => StateModel::Running,
            SupervisorState::Writing(w) => StateModel::Writing(*w),
            SupervisorState::Stopping => StateModel::Stopping,
            SupervisorState::Unsupervised => StateModel::Unsupervised,
            SupervisorState::Finished(r) => StateModel::Finished(r@),
        }
    }
}

/// The models of a sequence of actions.
pub open spec fn actions_model(a: Seq<SupervisorAction>) -> Seq<ActionModel> {
    a.map_values(|x: SupervisorAction| x@)
}

/// The process is there and not yet over.
pub open spec fn is_live(s: StateModel) -> bool {
    match s {
        StateModel::Running | StateModel::Writing(_) | StateModel::Stopping
        | StateModel::Unsupervised => true,
        _ => false,
    }
}

/// The auxiliary parser is stopped along with the process, where there is one.
pub open spec fn parser_kill(custom: bool) -> Seq<ActionModel> {
    if custom {
        seq![ActionModel::KillLineParser]
    } else {
        Seq::empty()
    }
}

/// The event that a classified line yields, if any.
pub open spec fn line_actions(line: Seq<char>) -> Seq<ActionModel> {
    match classify_line(line) {
        LineModel::JoinLeave(n, j) => seq![ActionModel::Emit(EventModel::JoinLeave(n, j))],
        LineModel::Chat(a, t) => seq![ActionModel::Emit(EventModel::Chat(a, t))],
        _ => Seq::empty(),
    }
}

/// What a task does to a live process other than a running one.
pub open spec fn busy_task(custom: bool, s: StateModel, t: TaskModel) -> (StateModel, Seq<ActionModel>) {
    match t {
        TaskModel::Kill => (
            StateModel::Finished(StopModel::KilledDueToTask),
            seq![ActionModel::KillProcess, ActionModel::Reply(Ok(REPLY_COMPLETED))] + parser_kill(custom),
        ),
        _ => (s, seq![ActionModel::Reply(Err(rejection_text()))]),
    }
}

/// One step of the supervisor: the next state and the actions to take.
pub open spec fn step_spec(custom: bool, s: StateModel, i: InputModel) -> (StateModel, Seq<ActionModel>) {
    match (s, i) {
        (StateModel::Finished(_), _) => (s, Seq::empty()),
        (StateModel::Starting, InputModel::Spawned(true)) => (StateModel::Running, Seq::empty()),
        (StateModel::Starting, InputModel::Spawned(false)) => (
            StateModel::Unsupervised,
            seq![ActionModel::Emit(EventModel::StdioUnavailable), ActionModel::WaitForExit],
        ),
        (StateModel::Starting, InputModel::SpawnFailed(e)) => (
            StateModel::Finished(StopModel::ProcessCouldNotBeSpawned(e)),
            Seq::empty(),
        ),
        (StateModel::Starting, InputModel::Task(_)) => (
            s,
            seq![ActionModel::Reply(Err(rejection_text()))],
        ),
        (StateModel::Running, InputModel::Task(TaskModel::Stop)) => (
            StateModel::Writing(PendingWrite::StopCommand),
            seq![ActionModel::Write(stop_line())],
        ),
        (StateModel::Running, InputModel::Task(TaskModel::RunCommand(c))) => (
            StateModel::Writing(PendingWrite::Command),
            seq![ActionModel::Write(escaped(c))],
        ),
        (_, InputModel::Task(t)) => if is_live(s) {
            busy_task(custom, s, t)
        } else {
            (s, Seq::empty())
        },
        (StateModel::Writing(PendingWrite::StopCommand), InputModel::Written(Ok(()))) => (
            StateModel::Stopping,
            seq![ActionModel::Reply(Ok(REPLY_ACKNOWLEDGED))],
        ),
        (StateModel::Writing(PendingWrite::StopCommand), InputModel::Written(Err(e))) => (
            StateModel::Running,
            seq![ActionModel::Emit(EventModel::CantWriteToStdin(e))],
        ),
        (StateModel::Writing(PendingWrite::Command), InputModel::Written(Ok(()))) => (
            StateModel::Running,
            seq![ActionModel::Reply(Ok(REPLY_COMPLETED))],
        ),
        (StateModel::Writing(PendingWrite::Command), InputModel::Written(Err(_))) => (
            StateModel::Running,
            seq![ActionModel::Reply(Ok(REPLY_FAILED))],
        ),
        (StateModel::Running, InputModel::Line(l)) => (s, line_actions(l)),
        (StateModel::Stopping, InputModel::Line(l)) => (s, line_actions(l)),
        (StateModel::Running, InputModel::Polled(ProcessStatusModel::Exited(c))) => (
            StateModel::Finished(StopModel::ProcessEnded(c)),
            parser_kill(custom),
        ),
        (StateModel::Unsupervised, InputModel::Polled(ProcessStatusModel::Exited(c))) => (
            StateModel::Finished(StopModel::ProcessEnded(c)),
            parser_kill(custom),
        ),
        (StateModel::Stopping, InputModel::Polled(ProcessStatusModel::Exited(c))) => (
            StateModel::Finished(StopModel::ProcessEnded(c)),
            seq![ActionModel::CompleteStop] + parser_kill(custom),
        ),
        (StateModel::Running, InputModel::Polled(ProcessStatusModel::Failed(e))) => (
            StateModel::Finished(StopModel::ProcessCouldNotBeAwaited(e)),
            Seq::empty(),
        ),
        (StateModel::Unsupervised, InputModel::Polled(ProcessStatusModel::Failed(e))) => (
            StateModel::Finished(StopModel::ProcessCouldNotBeAwaited(e)),
            Seq::empty(),
        ),
        (StateModel::Stopping, InputModel::Polled(ProcessStatusModel::Failed(e))) => (
            StateModel::Finished(StopModel::ProcessCouldNotBeAwaited(e)),
            seq![ActionModel::CompleteStop],
        ),
        _ => (s, Seq::empty()),
    }
}

/// The supervisor of one process: its state, and whether an auxiliary line
/// parser runs beside it.
pub struct Supervisor {
    pub state: SupervisorState,
    pub custom: bool,
}

fn one(a: SupervisorAction) -> (r: Vec<SupervisorAction>)
    ensures
        actions_model(r@) == seq![a@],
{
    let r = vec![a];
    assert(actions_model(r@) =~= seq![a@]);
    r
}

fn parser_kill_actions(custom: bool) -> (r: Vec<SupervisorAction>)
    ensures
        actions_model(r@) == parser_kill(custom),
{
    if custom {
        one(SupervisorAction::KillLineParser)
    } else {
        let r = Vec::new();
        assert(actions_model(r@) =~= Seq::empty());
        r
    }
}

fn rejection() -> (r: Vec<SupervisorAction>)
    ensures
        actions_model(r@) == seq![ActionModel::Reply(Err(rejection_text()))],
{
    one(SupervisorAction::Reply(Err(String::from_str("task not accepted in the current state"))))
}

fn line_events(line: &str) -> (r: Vec<SupervisorAction>)
    ensures
        actions_model(r@) == line_actions(line@),
{
    match parse_line(line) {
        ParseOutput::Event(MinecraftServerEventType::JoinLeave(j)) => one(
            SupervisorAction::Emit(
                MinecraftServerEvent { event: MinecraftServerEventType::JoinLeave(j) },
            ),
        ),
        ParseOutput::Event(MinecraftServerEventType::ChatMessage(c)) => one(
            SupervisorAction::Emit(
                MinecraftServerEvent { event: MinecraftServerEventType::ChatMessage(c) },
            ),
        ),
        _ => {
            let r = Vec::new();
            assert(actions_model(r@) =~= Seq::empty());
            r
        },
    }
}

impl Supervisor {
    /// A supervisor whose process is not yet created.
    pub fn new(custom: bool) -> (r: Supervisor)
        ensures
            r.state@ == StateModel::Starting,
            r.custom == custom,
    {
        Supervisor { state: SupervisorState::Starting, custom }
    }

    /// Whether the process is over.
    pub fn is_finished(&self) -> (r: bool)
        ensures
            r == self.state@ is Finished,
    {
        match &self.state {
            SupervisorState::Finished(_) => true,
            _ => false,
        }
    }

    /// Whether a graceful stop waits for the process to exit.
    pub fn is_stopping(&self) -> (r: bool)
        ensures
            r == self.state@ is Stopping,
    {
        match &self.state {
            SupervisorState::Stopping => true,
            _ => false,
        }
    }

    /// Why the process stopped, once it has.
    pub fn into_stop_reason(self) -> (r: Option<MinecraftServerStopReasons>)
        ensures
            match self.state@ {
                StateModel::Finished(m) => r is Some && r->0@ == m,
                _ => r is None,
            },
    {
        match self.state {
            SupervisorState::Finished(reason) => Some(reason),
            _ => None,
        }
    }

    fn live(&self) -> (r: bool)
        ensures
            r == is_live(self.state@),
    {
        match &self.state {
            SupervisorState::Running | SupervisorState::Writing(_) | SupervisorState::Stopping
            | SupervisorState::Unsupervised => true,
            _ => false,
        }
    }

    fn take_task(&mut self, t: MinecraftServerTask) -> (r: Vec<SupervisorAction>)
        requires
            !(old(self).state@ is Finished),
        ensures
            (final(self).state@, actions_model(r@)) == step_spec(
                old(self).custom,
                old(self).state@,
                InputModel::Task(t@),
            ),
            final(self).custom == old(self).custom,
    {
        let running = match &self.state {
            SupervisorState::Running => true,
            _ => false,
        };
        if running {
            match t {
                MinecraftServerTask::Stop => {
                    self.state = SupervisorState::Writing(PendingWrite::StopCommand);
                    proof {
                        reveal_strlit("stop");
                    }
                    return one(SupervisorAction::Write(String::from_str("stop")));
                },
                MinecraftServerTask::RunCommand(c) => {
                    self.state = SupervisorState::Writing(PendingWrite::Command);
                    return one(SupervisorAction::Write(escape_line(c.as_str())));
                },
                MinecraftServerTask::Kill => {},
            }
        }
        if !self.live() {
            if let SupervisorState::Starting = &self.state {
                return rejection();
            }
            let r = Vec::new();
            assert(actions_model(r@) =~= Seq::empty());
            return r;
        }
        match t {
            MinecraftServerTask::Kill => {
                self.state = SupervisorState::Finished(MinecraftServerStopReasons::KilledDueToTask);
                let mut r = vec![
                    SupervisorAction::KillProcess,
                    SupervisorAction::Reply(Ok(REPLY_COMPLETED)),
                ];
                let mut tail = parser_kill_actions(self.custom);
                r.append(&mut tail);
                assert(actions_model(r@) =~= seq![
                    ActionModel::KillProcess,
                    ActionModel::Reply(Ok(REPLY_COMPLETED)),
                ] + parser_kill(self.custom));
                r
            },
            _ => rejection(),
        }
    }

    fn take_written(&mut self, w: Result<(), String>) -> (r: Vec<SupervisorAction>)
        requires
            !(old(self).state@ is Finished),
        ensures
            (final(self).state@, actions_model(r@)) == step_spec(
                old(self).custom,
                old(self).state@,
                InputModel::Written(
                    match w {
                        Ok(()) => Ok(()),
                        Err(e) => Err(e@),
                    },
                ),
            ),
            final(self).custom == old(self).custom,
    {
        let pending = match &self.state {
            SupervisorState::Writing(p) => Some(*p),
            _ => None,
        };
        match pending {
            Some(PendingWrite::StopCommand) => match w {
                Ok(()) => {
                    self.state = SupervisorState::Stopping;
                    one(SupervisorAction::Reply(Ok(REPLY_ACKNOWLEDGED)))
                },
                Err(e) => {
                    self.state = SupervisorState::Running;
                    one(
                        SupervisorAction::Emit(
                            MinecraftServerEvent {
                                event: MinecraftServerEventType::Warning(
                                    MinecraftServerWarning::CantWriteToStdin(e),
                                ),
                            },
                        ),
                    )
                },
            },
            Some(PendingWrite::Command) => {
                self.state = SupervisorState::Running;
                match w {
                    Ok(()) => one(SupervisorAction::Reply(Ok(REPLY_COMPLETED))),
                    Err(_) => one(SupervisorAction::Reply(Ok(REPLY_FAILED))),
                }
            },
            None => {
                let r = Vec::new();
                assert(actions_model(r@) =~= Seq::empty());
                r
            },
        }
    }

    fn take_poll(&mut self, p: ProcessStatus) -> (r: Vec<SupervisorAction>)
        requires
            !(old(self).state@ is Finished),
        ensures
            (final(self).state@, actions_model(r@)) == step_spec(
                old(self).custom,
                old(self).state@,
                InputModel::Polled(p@),
            ),
            final(self).custom == old(self).custom,
    {
        let watching = match &self.state {
            SupervisorState::Running | SupervisorState::Stopping
            | SupervisorState::Unsupervised => true,
            _ => false,
        };
        if !watching {
            let r = Vec::new();
            assert(actions_model(r@) =~= Seq::empty());
            return r;
        }
        let stopping = self.is_stopping();
        match p {
            ProcessStatus::Running => {
                let r = Vec::new();
                assert(actions_model(r@) =~= Seq::empty());
                r
            },
            ProcessStatus::Exited(c) => {
                self.state = SupervisorState::Finished(MinecraftServerStopReasons::ProcessEnded(c));
                let mut tail = parser_kill_actions(self.custom);
                if stopping {
                    let mut r = vec![SupervisorAction::CompleteStop];
                    r.append(&mut tail);
                    assert(actions_model(r@) =~= seq![ActionModel::CompleteStop] + parser_kill(
                        self.custom,
                    ));
                    r
                } else {
                    tail
                }
            },
            ProcessStatus::Failed(e) => {
                self.state = SupervisorState::Finished(
                    MinecraftServerStopReasons::ProcessCouldNotBeAwaited(e),
                );
                if stopping {
                    one(SupervisorAction::CompleteStop)
                } else {
                    let r = Vec::new();
                    assert(actions_model(r@) =~= Seq::empty());
                    r
                }
            },
        }
    }

    /// Takes one observation and returns the actions that it calls for, in
    /// the order in which they are to be done.
    pub fn step(&mut self, input: SupervisorInput) -> (r: Vec<SupervisorAction>)
        ensures
            (final(self).state@, actions_model(r@)) == step_spec(
                old(self).custom,
                old(self).state@,
                input@,
            ),
            final(self).custom == old(self).custom,
    {
        if self.is_finished() {
            let r = Vec::new();
            assert(actions_model(r@) =~= Seq::empty());
            return r;
        }
        match input {
            SupervisorInput::Task(t) => self.take_task(t),
            SupervisorInput::Written(w) => self.take_written(w),
            SupervisorInput::Polled(p) => self.take_poll(p),
            SupervisorInput::Line(l) => {
                let reading = match &self.state {
                    SupervisorState::Running | SupervisorState::Stopping => true,
                    _ => false,
                };
                if reading {
                    line_events(l.as_str())
                } else {
                    let r = Vec::new();
                    assert(actions_model(r@) =~= Seq::empty());
                    r
                }
            },
            SupervisorInput::Spawned { stdio } => {
                let starting = match &self.state {
                    SupervisorState::Starting => true,
                    _ => false,
                };
                if !starting {
                    let r = Vec::new();
                    assert(actions_model(r@) =~= Seq::empty());
                    return r;
                }
                if stdio {
                    self.state = SupervisorState::Running;
                    let r = Vec::new();
                    assert(actions_model(r@) =~= Seq::empty());
                    r
                } else {
                    self.state = SupervisorState::Unsupervised;
                    let r = vec![
                        SupervisorAction::Emit(
                            MinecraftServerEvent {
                                event: MinecraftServerEventType::Warning(
                                    MinecraftServerWarning::CouldNotGetServerProcessStdio,
                                ),
                            },
                        ),
                        SupervisorAction::WaitForExit,
                    ];
                    assert(actions_model(r@) =~= seq![
                        ActionModel::Emit(EventModel::StdioUnavailable),
                        ActionModel::WaitForExit,
                    ]);
                    r
                }
            },
            SupervisorInput::SpawnFailed(e) => {
                let starting = match &self.state {
                    SupervisorState::Starting => true,
                    _ => false,
                };
                if starting {
                    self.state = SupervisorState::Finished(
                        MinecraftServerStopReasons::ProcessCouldNotBeSpawned(e),
                    );
                }
                let r = Vec::new();
                assert(actions_model(r@) =~= Seq::empty());
                r
            },
        }
    }
}

/// The state reached and the actions taken over a sequence of observations.
pub open spec fn run_spec(custom: bool, s: StateModel, inputs: Seq<InputModel>) -> (
    StateModel,
    Seq<ActionModel>,
)
    decreases inputs.len(),
{
    if inputs.len() == 0 {
        (s, Seq::empty())
    } else {
        let (s1, a1) = run_spec(custom, s, inputs.drop_last());
        let (s2, a2) = step_spec(custom, s1, inputs.last());
        (s2, a1 + a2)
    }
}

/// The reply to a command whose write ended with `outcome`.
pub open spec fn command_reply(outcome: Result<(), Seq<char>>) -> Result<u8, Seq<char>> {
    if outcome is Ok {
        Ok(REPLY_COMPLETED)
    } else {
        Ok(REPLY_FAILED)
    }
}

/// The observations of a run of commands: each task, then the outcome of its write.
pub open spec fn command_inputs(texts: Seq<Seq<char>>, outcomes: Seq<Result<(), Seq<char>>>) -> Seq<
    InputModel,
>
    decreases texts.len(),
{
    if texts.len() == 0 || outcomes.len() != texts.len() {
        Seq::empty()
    } else {
        command_inputs(texts.drop_last(), outcomes.drop_last()) + seq![
            InputModel::Task(TaskModel::RunCommand(texts.last())),
            InputModel::Written(outcomes.last()),
        ]
    }
}

/// For each command, one escaped line written and one reply.
pub open spec fn command_actions(texts: Seq<Seq<char>>, outcomes: Seq<Result<(), Seq<char>>>) -> Seq<
    ActionModel,
>
    decreases texts.len(),
{
    if texts.len() == 0 || outcomes.len() != texts.len() {
        Seq::empty()
    } else {
        command_actions(texts.drop_last(), outcomes.drop_last()) + seq![
            ActionModel::Write(escaped(texts.last())),
            ActionModel::Reply(command_reply(outcomes.last())),
        ]
    }
}

/// Any run of commands handed to a running process writes, for each command
/// in turn, exactly one line (the command with its line breaks escaped) and
/// gives exactly one reply, and leaves the supervisor running.
pub proof fn lemma_commands_each_write_and_reply_once(
    custom: bool,
    texts: Seq<Seq<char>>,
    outcomes: Seq<Result<(), Seq<char>>>,
)
    requires
        texts.len() == outcomes.len(),
    ensures
        run_spec(custom, StateModel::Running, command_inputs(texts, outcomes)) == (
            StateModel::Running,
            command_actions(texts, outcomes),
        ),
    decreases texts.len(),
{
    if texts.len() > 0 {
        let t0 = texts.drop_last();
        let o0 = outcomes.drop_last();
        lemma_commands_each_write_and_reply_once(custom, t0, o0);
        let prev = command_inputs(t0, o0);
        let a = InputModel::Task(TaskModel::RunCommand(texts.last()));
        let b = InputModel::Written(outcomes.last());
        let all = command_inputs(texts, outcomes);
        assert(all == prev + seq![a, b]);
        assert(all.drop_last() =~= prev + seq![a]);
        assert((prev + seq![a]).drop_last() =~= prev);
        assert(all.last() == b);
        assert((prev + seq![a]).last() == a);
        let acts = command_actions(t0, o0);
        let w = ActionModel::Write(escaped(texts.last()));
        let rep = ActionModel::Reply(command_reply(outcomes.last()));
        assert(step_spec(custom, StateModel::Running, a) == (
            StateModel::Writing(PendingWrite::Command),
            seq![w],
        ));
        assert(step_spec(custom, StateModel::Writing(PendingWrite::Command), b) == (
            StateModel::Running,
            seq![rep],
        ));
        assert(run_spec(custom, StateModel::Running, prev + seq![a]) == (
            StateModel::Writing(PendingWrite::Command),
            acts + seq![w],
        ));
        assert(command_actions(texts, outcomes) =~= acts + seq![w] + seq![rep]);
    } else {
        assert(command_inputs(texts, outcomes) =~= Seq::empty());
        assert(command_actions(texts, outcomes) =~= Seq::empty());
    }
}

/// What a `Kill` does: terminate the process, complete the task, and stop the
/// auxiliary parser where there is one.
pub open spec fn kill_actions(custom: bool) -> Seq<ActionModel> {
    seq![ActionModel::KillProcess, ActionModel::Reply(Ok(REPLY_COMPLETED))] + parser_kill(custom)
}

/// A `Kill` handed to a live process ends supervision with `KilledDueToTask`,
/// whatever comes after it: no later observation, a pending command among
/// them, is acted on.
pub proof fn lemma_kill_ends_supervision(custom: bool, s: StateModel, later: Seq<InputModel>)
    requires
        is_live(s),
    ensures
        run_spec(custom, s, seq![InputModel::Task(TaskModel::Kill)] + later) == (
            StateModel::Finished(StopModel::KilledDueToTask),
            kill_actions(custom),
        ),
    decreases later.len(),
{
    let kill = InputModel::Task(TaskModel::Kill);
    let all = seq![kill] + later;
    let outcome = (StateModel::Finished(StopModel::KilledDueToTask), kill_actions(custom));
    assert(step_spec(custom, s, kill) == outcome) by {
        match s {
            StateModel::Running => {},
            StateModel::Writing(_) => {},
            StateModel::Stopping => {},
            StateModel::Unsupervised => {},
            _ => {},
        }
    }
    if later.len() == 0 {
        assert(all.drop_last() =~= Seq::empty());
        assert(all.last() == kill);
        assert(run_spec(custom, s, all.drop_last()) == (s, Seq::<ActionModel>::empty()));
        assert(Seq::<ActionModel>::empty() + kill_actions(custom) =~= kill_actions(custom));
    } else {
        lemma_kill_ends_supervision(custom, s, later.drop_last());
        assert(all.drop_last() =~= seq![kill] + later.drop_last());
        let f = StateModel::Finished(StopModel::KilledDueToTask);
        assert(step_spec(custom, f, all.last()) == (f, Seq::<ActionModel>::empty()));
        assert(run_spec(custom, s, all.drop_last()) == outcome);
        assert(kill_actions(custom) + Seq::<ActionModel>::empty() =~= kill_actions(custom));
    }
}

/// The observations of a run of output lines.
pub open spec fn line_inputs(lines: Seq<Seq<char>>) -> Seq<InputModel> {
    lines.map_values(|l: Seq<char>| InputModel::Line(l))
}

/// The events of a run of output lines: each line's own, in the order of the lines.
pub open spec fn lines_actions(lines: Seq<Seq<char>>) -> Seq<ActionModel>
    decreases lines.len(),
{
    if lines.len() == 0 {
        Seq::empty()
    } else {
        lines_actions(lines.drop_last()) + line_actions(lines.last())
    }
}

/// Output lines read while the process runs give their events in the order
/// of the lines, at most one per line, and change nothing else.
pub proof fn lemma_lines_give_events_in_order(custom: bool, lines: Seq<Seq<char>>)
    ensures
        run_spec(custom, StateModel::Running, line_inputs(lines)) == (
            StateModel::Running,
            lines_actions(lines),
        ),
        forall|i: int| 0 <= i < lines.len() ==> #[trigger] line_actions(lines[i]).len() <= 1,
    decreases lines.len(),
{
    if lines.len() > 0 {
        lemma_lines_give_events_in_order(custom, lines.drop_last());
        assert(line_inputs(lines).drop_last() =~= line_inputs(lines.drop_last()));
        assert(line_inputs(lines).last() == InputModel::Line(lines.last()));
        assert forall|i: int| 0 <= i < lines.len() implies #[trigger] line_actions(lines[i]).len()
            <= 1 by {
            if i < lines.len() - 1 {
                assert(lines[i] == lines.drop_last()[i]);
            }
        }
    } else {
        assert(line_inputs(lines) =~= Seq::empty());
    }
}

} // verus!
