use mcdcbot::events::{
    ChatMessage, JoinLeaveEvent, MinecraftServerEvent, MinecraftServerEventType,
    MinecraftServerStopReasons, MinecraftServerTask, MinecraftServerWarning,
};
use mcdcbot::supervisor::{
    ProcessStatus, Supervisor, SupervisorAction, SupervisorInput, REPLY_ACKNOWLEDGED,
    REPLY_COMPLETED, REPLY_FAILED,
};

fn running(custom: bool) -> Supervisor {
    let mut s = Supervisor::new(custom);
    assert!(s.step(SupervisorInput::Spawned { stdio: true }).is_empty());
    s
}

fn task(t: MinecraftServerTask) -> SupervisorInput {
    SupervisorInput::Task(t)
}

fn command(c: &str) -> SupervisorInput {
    task(MinecraftServerTask::RunCommand(c.to_string()))
}

fn emit(event: MinecraftServerEventType) -> SupervisorAction {
    SupervisorAction::Emit(MinecraftServerEvent { event })
}

#[test]
fn join_chat_then_exit() {
    let mut s = running(false);
    let a = s.step(SupervisorInput::Line("Alice joined the game".to_string()));
    assert_eq!(
        a,
        vec![emit(MinecraftServerEventType::JoinLeave(JoinLeaveEvent {
            username: "Alice".to_string(),
            joined: true
        }))]
    );
    assert!(s.step(SupervisorInput::Polled(ProcessStatus::Running)).is_empty());
    let a = s.step(SupervisorInput::Line("<Bob> hello".to_string()));
    assert_eq!(
        a,
        vec![emit(MinecraftServerEventType::ChatMessage(ChatMessage {
            author: "Bob".to_string(),
            message: "hello".to_string()
        }))]
    );
    assert!(!s.is_finished());
    assert!(s.step(SupervisorInput::Polled(ProcessStatus::Exited(Some(0)))).is_empty());
    assert!(s.is_finished());
    assert_eq!(
        s.into_stop_reason(),
        Some(MinecraftServerStopReasons::ProcessEnded(Some(0)))
    );
}

#[test]
fn unrecognised_lines_give_no_event() {
    let mut s = running(false);
    assert!(s.step(SupervisorInput::Line("Preparing spawn area".to_string())).is_empty());
    assert!(s.step(SupervisorInput::Line("<Bob>broken".to_string())).is_empty());
}

#[test]
fn commands_each_write_one_line_and_reply_once() {
    let mut s = running(false);
    assert_eq!(
        s.step(command("say hi\nop me")),
        vec![SupervisorAction::Write("say hi\\nop me".to_string())]
    );
    assert_eq!(
        s.step(SupervisorInput::Written(Ok(()))),
        vec![SupervisorAction::Reply(Ok(REPLY_COMPLETED))]
    );
    assert_eq!(
        s.step(command("list\r")),
        vec![SupervisorAction::Write("list\\r".to_string())]
    );
    assert_eq!(
        s.step(SupervisorInput::Written(Err("broken pipe".to_string()))),
        vec![SupervisorAction::Reply(Ok(REPLY_FAILED))]
    );
    assert!(!s.is_finished());
}

#[test]
fn kill_ends_and_later_tasks_are_ignored() {
    let mut s = running(false);
    assert_eq!(
        s.step(task(MinecraftServerTask::Kill)),
        vec![
            SupervisorAction::KillProcess,
            SupervisorAction::Reply(Ok(REPLY_COMPLETED))
        ]
    );
    assert!(s.is_finished());
    assert!(s.step(command("say late")).is_empty());
    assert!(s.step(command("say later")).is_empty());
    assert!(s.step(SupervisorInput::Polled(ProcessStatus::Exited(Some(1)))).is_empty());
    assert_eq!(
        s.into_stop_reason(),
        Some(MinecraftServerStopReasons::KilledDueToTask)
    );
}

#[test]
fn kill_of_custom_server_stops_line_parser() {
    let mut s = running(true);
    assert_eq!(
        s.step(task(MinecraftServerTask::Kill)),
        vec![
            SupervisorAction::KillProcess,
            SupervisorAction::Reply(Ok(REPLY_COMPLETED)),
            SupervisorAction::KillLineParser
        ]
    );
}

#[test]
fn exit_of_custom_server_stops_line_parser() {
    let mut s = running(true);
    assert_eq!(
        s.step(SupervisorInput::Polled(ProcessStatus::Exited(None))),
        vec![SupervisorAction::KillLineParser]
    );
    assert_eq!(
        s.into_stop_reason(),
        Some(MinecraftServerStopReasons::ProcessEnded(None))
    );
}

#[test]
fn ignored_stop_never_completes_but_earlier_commands_do() {
    let mut s = running(false);
    assert_eq!(
        s.step(command("say bye")),
        vec![SupervisorAction::Write("say bye".to_string())]
    );
    assert_eq!(
        s.step(SupervisorInput::Written(Ok(()))),
        vec![SupervisorAction::Reply(Ok(REPLY_COMPLETED))]
    );
    assert_eq!(
        s.step(task(MinecraftServerTask::Stop)),
        vec![SupervisorAction::Write("stop".to_string())]
    );
    assert_eq!(
        s.step(SupervisorInput::Written(Ok(()))),
        vec![SupervisorAction::Reply(Ok(REPLY_ACKNOWLEDGED))]
    );
    for _ in 0..50 {
        assert!(s.step(SupervisorInput::Polled(ProcessStatus::Running)).is_empty());
    }
    assert!(s.is_stopping());
    assert!(!s.is_finished());
}

#[test]
fn stop_completes_when_process_exits() {
    let mut s = running(false);
    s.step(task(MinecraftServerTask::Stop));
    s.step(SupervisorInput::Written(Ok(())));
    assert_eq!(
        s.step(SupervisorInput::Polled(ProcessStatus::Exited(Some(0)))),
        vec![SupervisorAction::CompleteStop]
    );
    assert!(s.is_finished());
}

#[test]
fn tasks_while_stopping_are_rejected_and_kill_still_works() {
    let mut s = running(false);
    s.step(task(MinecraftServerTask::Stop));
    s.step(SupervisorInput::Written(Ok(())));
    assert_eq!(
        s.step(command("say hi")),
        vec![SupervisorAction::Reply(Err(
            "task not accepted in the current state".to_string()
        ))]
    );
    assert_eq!(
        s.step(task(MinecraftServerTask::Kill)),
        vec![
            SupervisorAction::KillProcess,
            SupervisorAction::Reply(Ok(REPLY_COMPLETED))
        ]
    );
    assert_eq!(
        s.into_stop_reason(),
        Some(MinecraftServerStopReasons::KilledDueToTask)
    );
}

#[test]
fn failed_stop_write_warns_and_keeps_running() {
    let mut s = running(false);
    s.step(task(MinecraftServerTask::Stop));
    assert_eq!(
        s.step(SupervisorInput::Written(Err("closed".to_string()))),
        vec![emit(MinecraftServerEventType::Warning(
            MinecraftServerWarning::CantWriteToStdin("closed".to_string())
        ))]
    );
    assert!(!s.is_finished());
    assert!(!s.is_stopping());
}

#[test]
fn missing_stdio_warns_and_waits() {
    let mut s = Supervisor::new(false);
    assert_eq!(
        s.step(SupervisorInput::Spawned { stdio: false }),
        vec![
            emit(MinecraftServerEventType::Warning(
                MinecraftServerWarning::CouldNotGetServerProcessStdio
            )),
            SupervisorAction::WaitForExit
        ]
    );
    assert!(s.step(SupervisorInput::Polled(ProcessStatus::Failed("wait".to_string()))).is_empty());
    assert_eq!(
        s.into_stop_reason(),
        Some(MinecraftServerStopReasons::ProcessCouldNotBeAwaited("wait".to_string()))
    );
}

#[test]
fn spawn_failure_is_terminal() {
    let mut s = Supervisor::new(true);
    assert!(s.step(SupervisorInput::SpawnFailed("not found".to_string())).is_empty());
    assert!(s.is_finished());
    assert!(s.step(task(MinecraftServerTask::Kill)).is_empty());
    assert_eq!(
        s.into_stop_reason(),
        Some(MinecraftServerStopReasons::ProcessCouldNotBeSpawned("not found".to_string()))
    );
}

#[test]
fn tasks_before_spawn_are_rejected() {
    let mut s = Supervisor::new(false);
    assert_eq!(
        s.step(task(MinecraftServerTask::Stop)),
        vec![SupervisorAction::Reply(Err(
            "task not accepted in the current state".to_string()
        ))]
    );
    assert!(!s.is_finished());
}

#[test]
fn poll_failure_ends_supervision() {
    let mut s = running(false);
    assert!(s.step(SupervisorInput::Polled(ProcessStatus::Failed("io".to_string()))).is_empty());
    assert_eq!(
        s.into_stop_reason(),
        Some(MinecraftServerStopReasons::ProcessCouldNotBeAwaited("io".to_string()))
    );
}
