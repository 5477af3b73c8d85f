use mcdcbot::bot::{
    already_running_text, combine_ips, decide_start, find_server, join_leave_text,
    server_list, server_started_text, server_stopped_title, tellraw_command, StartDecision,
};
use mcdcbot::events::{JoinLeaveEvent, MinecraftServerStopReason, MinecraftServerStopReasons};
use mcdcbot::server::{MinecraftServer, MinecraftServerSettings, MinecraftServerType};

fn server(name: &str, short: Option<&str>) -> MinecraftServer {
    MinecraftServer {
        name: name.to_string(),
        short: short.map(|s| s.to_string()),
        settings: MinecraftServerSettings {
            directory: "/srv".to_string(),
            executable: "java".to_string(),
            arguments: vec!["-jar".to_string(), "server.jar".to_string()],
            server_type: MinecraftServerType::Vanilla,
        },
    }
}

fn servers() -> Vec<MinecraftServer> {
    vec![
        server("survival", Some("s")),
        server("creative", Some("c")),
        server("s", None),
        server("modded", None),
    ]
}

#[test]
fn short_name_wins_over_full_name() {
    assert_eq!(find_server(&servers(), "s"), Some(0));
    assert_eq!(find_server(&servers(), "creative"), Some(1));
    assert_eq!(find_server(&servers(), "modded"), Some(3));
    assert_eq!(find_server(&servers(), "nope"), None);
    assert_eq!(find_server(&Vec::new(), "s"), None);
}

#[test]
fn start_decisions() {
    assert_eq!(decide_start(&servers(), None, "c"), StartDecision::Start(1));
    assert_eq!(decide_start(&servers(), Some(3), "c"), StartDecision::AlreadyRunning(3));
    assert_eq!(decide_start(&servers(), Some(3), "x"), StartDecision::NotFound);
}

#[test]
fn list_of_servers() {
    assert_eq!(
        server_list(&servers()),
        "Available servers:\n- (s) survival\n- (c) creative\n- s\n- modded"
    );
    assert_eq!(server_list(&Vec::new()), "Available servers:");
}

#[test]
fn relayed_chat_command() {
    assert_eq!(
        tellraw_command("Eve", "hi\\there\nnew"),
        "tellraw @a \"<Eve> hi\\\\there\\nnew\""
    );
}

#[test]
fn address_texts() {
    let s = |v: &str| Some(v.to_string());
    assert_eq!(combine_ips(s("1.2.3.4"), s("1.2.3.4")), "1.2.3.4");
    assert_eq!(combine_ips(s("1.2.3.4"), s("5.6.7.8")), "1.2.3.4 / 5.6.7.8");
    assert_eq!(combine_ips(s("1.2.3.4"), None), "1.2.3.4");
    assert_eq!(combine_ips(None, s("5.6.7.8")), "5.6.7.8");
    assert_eq!(combine_ips(None, None), "unknown");
}

#[test]
fn notice_texts() {
    let joined = JoinLeaveEvent { username: "Alice".to_string(), joined: true };
    let left = JoinLeaveEvent { username: "Alice".to_string(), joined: false };
    assert_eq!(join_leave_text(&joined), "Alice joined");
    assert_eq!(join_leave_text(&left), "Alice left");
    assert_eq!(server_started_text(Some("1.2.3.4")), "Server was started, IP: 1.2.3.4");
    assert_eq!(server_started_text(None), "Server was started");
    assert_eq!(server_stopped_title(None), "Stopped.");
    assert_eq!(
        already_running_text("survival"),
        "Already running 'survival'! (stop the server before starting it)"
    );
}

#[test]
fn stop_reason_texts() {
    let t = |r: MinecraftServerStopReasons| {
        server_stopped_title(Some(&MinecraftServerStopReason { reason: r }))
    };
    assert_eq!(t(MinecraftServerStopReasons::KilledDueToTask), "killed (due to task)");
    assert_eq!(t(MinecraftServerStopReasons::ProcessEnded(Some(0))), "Stopped");
    assert_eq!(
        t(MinecraftServerStopReasons::ProcessEnded(Some(137))),
        "Stopped (Exited with status 137)!"
    );
    assert_eq!(
        t(MinecraftServerStopReasons::ProcessEnded(Some(-2147483648))),
        "Stopped (Exited with status -2147483648)!"
    );
    assert_eq!(t(MinecraftServerStopReasons::ProcessEnded(None)), "Stopped!");
    assert_eq!(
        t(MinecraftServerStopReasons::ProcessCouldNotBeSpawned("x".to_string())),
        "Couldn't spawn process (check your paths!)"
    );
    assert_eq!(
        t(MinecraftServerStopReasons::ProcessCouldNotBeAwaited("x".to_string())),
        "Couldn't wait for process to end (check console/log for errors)"
    );
}
