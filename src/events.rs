//! Tasks sent to a running server, events read from it, and why it stopped.
use vstd::prelude::*;
use vstd::string::*;

verus! {

/// A command directed at a running server.
#[derive(Debug, PartialEq, Eq)]
pub enum MinecraftServerTask {
    /// Ask the server to shut down gracefully.
    Stop,
    /// Terminate the server process at once.
    Kill,
    /// Send one line to the server's console.
    RunCommand(String),
}

/// What a task looks like in contracts.
pub enum TaskModel {
    Stop,
    Kill,
    RunCommand(Seq<char>),
}

impl View for MinecraftServerTask {
    type V = TaskModel;

    open spec fn view(&self) -> TaskModel {
        match self {
            MinecraftServerTask::Stop => TaskModel::Stop,
            MinecraftServerTask::Kill => TaskModel::Kill,
            MinecraftServerTask::RunCommand(c) => TaskModel::RunCommand(c@),
        }
    }
}

/// An operational problem met while supervising the server.
#[derive(Debug, PartialEq, Eq)]
pub enum MinecraftServerWarning {
    /// The process was started, but its standard streams could not be taken.
    CouldNotGetServerProcessStdio,
    /// Writing to the process input failed; holds the error's description.
    CantWriteToStdin(String),
}

/// A player entered or left the server.
#[derive(Debug, PartialEq, Eq)]
pub struct JoinLeaveEvent {
    pub username: String,
    pub joined: bool,
}

/// A chat line written by a player.
#[derive(Debug, PartialEq, Eq)]
pub struct ChatMessage {
    pub author: String,
    pub message: String,
}

#[derive(Debug, PartialEq, Eq)]
pub enum MinecraftServerEventType {
    Warning(MinecraftServerWarning),
    JoinLeave(JoinLeaveEvent),
    ChatMessage(ChatMessage),
}

/// One occurrence derived from the server's output or from supervising it.
#[derive(Debug, PartialEq, Eq)]
pub struct MinecraftServerEvent {
    pub event: MinecraftServerEventType,
}

/// What an event looks like in contracts.
pub enum EventModel {
    StdioUnavailable,
    CantWriteToStdin(Seq<char>),
    JoinLeave(Seq<char>, bool),
    Chat(Seq<char>, Seq<char>),
}

impl View for MinecraftServerEventType {
    type V = EventModel;

    open spec fn view(&self) -> EventModel {
        match self {
            MinecraftServerEventType::Warning(
                MinecraftServerWarning::CouldNotGetServerProcessStdio,
            ) => EventModel::StdioUnavailable,
            MinecraftServerEventType::Warning(MinecraftServerWarning::CantWriteToStdin(e)) => {
                EventModel::CantWriteToStdin(e@)
            },
            MinecraftServerEventType::JoinLeave(j) => EventModel::JoinLeave(j.username@, j.joined),
            MinecraftServerEventType::ChatMessage(c) => EventModel::Chat(c.author@, c.message@),
        }
    }
}

impl View for MinecraftServerEvent {
    type V = EventModel;

    open spec fn view(&self) -> EventModel {
        self.event@
    }
}

/// Why a supervised process stopped.
#[derive(Debug, PartialEq, Eq)]
pub enum MinecraftServerStopReasons {
    /// A `Kill` task terminated it.
    KilledDueToTask,
    /// It exited by itself; holds its exit code, if it had one.
    ProcessEnded(Option<i32>),
    /// It could not be started; holds the error's description.
    ProcessCouldNotBeSpawned(String),
    /// Waiting for it failed; holds the error's description.
    ProcessCouldNotBeAwaited(String),
}

/// The terminal outcome of one supervised process.
#[derive(Debug, PartialEq, Eq)]
pub struct MinecraftServerStopReason {
    pub reason: MinecraftServerStopReasons,
}

/// What a stop reason looks like in contracts.
pub enum StopModel {
    KilledDueToTask,
    ProcessEnded(Option<i32>),
    ProcessCouldNotBeSpawned(Seq<char>),
    ProcessCouldNotBeAwaited(Seq<char>),
}

impl View for MinecraftServerStopReasons {
    type V = StopModel;

    open spec fn view(&self) -> StopModel {
        match self {
            MinecraftServerStopReasons::KilledDueToTask => StopModel::KilledDueToTask,
            MinecraftServerStopReasons::ProcessEnded(c) => StopModel::ProcessEnded(*c),
            MinecraftServerStopReasons::ProcessCouldNotBeSpawned(e) => {
                StopModel::ProcessCouldNotBeSpawned(e@)
            },
            MinecraftServerStopReasons::ProcessCouldNotBeAwaited(e) => {
                StopModel::ProcessCouldNotBeAwaited(e@)
            },
        }
    }
}

impl View for MinecraftServerStopReason {
    type V = StopModel;

    open spec fn view(&self) -> StopModel {
        self.reason@
    }
}

/// The character of a decimal digit.
pub open spec fn digit_char(d: nat) -> char {
    if d == 0 {
        '0'
    } else if d == 1 {
        '1'
    } else if d == 2 {
        '2'
    } else if d == 3 {
        '3'
    } else if d == 4 {
        '4'
    } else if d == 5 {
        '5'
    } else if d == 6 {
        '6'
    } else if d == 7 {
        '7'
    } else if d == 8 {
        '8'
    } else {
        '9'
    }
}

/// The decimal digits of a natural number, without leading zeros.
pub open spec fn decimal(n: nat) -> Seq<char>
    decreases n,
{
    if n < 10 {
        seq![digit_char(n)]
    } else {
        decimal(n / 10) + seq![digit_char(n % 10)]
    }
}

/// The decimal text of an integer, with a leading `-` when it is negative.
pub open spec fn signed_decimal(i: int) -> Seq<char> {
    if i < 0 {
        seq!['-'] + decimal((-i) as nat)
    } else {
        decimal(i as nat)
    }
}

fn digit_text(d: u32) -> (r: &'static str)
    requires
        d < 10,
    ensures
        r@ == seq![digit_char(d as nat)],
{
    proof {
        reveal_strlit("0");
        reveal_strlit("1");
        reveal_strlit("2");
        reveal_strlit("3");
        reveal_strlit("4");
        reveal_strlit("5");
        reveal_strlit("6");
        reveal_strlit("7");
        reveal_strlit("8");
        reveal_strlit("9");
    }
    match d {
        0 => "0",
        1 => "1",
        2 => "2",
        3 => "3",
        4 => "4",
        5 => "5",
        6 => "6",
        7 => "7",
        8 => "8",
        _ => "9",
    }
}

fn decimal_text(n: u32) -> (r: String)
    ensures
        r@ == decimal(n as nat),
    decreases n,
{
    if n < 10 {
        String::from_str(digit_text(n))
    } else {
        let mut r = decimal_text(n / 10);
        r.append(digit_text(n % 10));
        r
    }
}

/// The decimal text of a signed number, as `{}` formats it.
pub fn signed_decimal_text(i: i32) -> (r: String)
    ensures
        r@ == signed_decimal(i as int),
{
    if i < 0 {
        let magnitude: u32 = (0i64 - i as i64) as u32;
        let mut r = String::from_str("-");
        proof {
            reveal_strlit("-");
        }
        let digits = decimal_text(magnitude);
        r.append(digits.as_str());
        r
    } else {
        decimal_text(i as u32)
    }
}

/// The operator-facing text of a stop reason.
pub open spec fn stop_text(r: StopModel) -> Seq<char> {
    match r {
        StopModel::KilledDueToTask => "killed (due to task)"@,
        StopModel::ProcessEnded(Some(0)) => "Stopped"@,
        StopModel::ProcessEnded(Some(s)) => "Stopped (Exited with status "@ + signed_decimal(
            s as int,
        ) + ")!"@,
        StopModel::ProcessEnded(None) => "Stopped!"@,
        StopModel::ProcessCouldNotBeSpawned(_) => "Couldn't spawn process (check your paths!)"@,
        StopModel::ProcessCouldNotBeAwaited(_) => {
            "Couldn't wait for process to end (check console/log for errors)"@
        },
    }
}

impl MinecraftServerStopReasons {
    /// The text shown to operators for this reason.
    pub fn describe(&self) -> (r: String)
        ensures
            r@ == stop_text(self@),
    {
        match self {
            MinecraftServerStopReasons::KilledDueToTask => String::from_str("killed (due to task)"),
            MinecraftServerStopReasons::ProcessEnded(Some(s)) => {
                if *s == 0 {
                    String::from_str("Stopped")
                } else {
                    let mut r = String::from_str("Stopped (Exited with status ");
                    let code = signed_decimal_text(*s);
                    r.append(code.as_str());
                    r.append(")!");
                    r
                }
            },
            MinecraftServerStopReasons::ProcessEnded(None) => String::from_str("Stopped!"),
            MinecraftServerStopReasons::ProcessCouldNotBeSpawned(_) => String::from_str(
                "Couldn't spawn process (check your paths!)",
            ),
            MinecraftServerStopReasons::ProcessCouldNotBeAwaited(_) => String::from_str(
                "Couldn't wait for process to end (check console/log for errors)",
            ),
        }
    }
}

impl MinecraftServerStopReason {
    /// The text shown to operators for this stop.
    pub fn describe(&self) -> (r: String)
        ensures
            r@ == stop_text(self@),
    {
        self.reason.describe()
    }
}

} // verus!
