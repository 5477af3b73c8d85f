use mcdcbot::bot::short_names;
use mcdcbot::server::{MinecraftServer, MinecraftServerSettings, MinecraftServerType, ServerFileError};

fn named(name: &str) -> MinecraftServer {
    MinecraftServer {
        name: name.to_string(),
        short: None,
        settings: MinecraftServerSettings {
            directory: String::new(),
            executable: "java".to_string(),
            arguments: Vec::new(),
            server_type: MinecraftServerType::Vanilla,
        },
    }
}

fn some(s: &str) -> Option<String> {
    Some(s.to_string())
}

#[test]
fn short_names_take_first_letter_then_initials() {
    let servers = vec![
        named("Survival"),
        named("Sky Block"),
        named("  creative"),
        named("sb"),
        named("Sky Blue"),
        named(""),
    ];
    assert_eq!(
        short_names(&servers),
        vec![some("s"), some("SB"), some("c"), some("S"), None, None]
    );
}

#[test]
fn short_names_of_no_servers() {
    assert!(short_names(&Vec::new()).is_empty());
}

#[test]
fn vanilla_server_definition() {
    let s = MinecraftServerSettings::from_text(
        "directory= /srv/mc \nexecutable=java\nargument=-Xmx2G\nargument= -jar\nargument=server.jar\nnote=ignored\n",
    )
    .unwrap();
    assert_eq!(s.directory, "/srv/mc");
    assert_eq!(s.executable, "java");
    assert_eq!(s.arguments, vec!["-Xmx2G", "-jar", "server.jar"]);
    assert_eq!(s.server_type, MinecraftServerType::Vanilla);
    assert!(!s.is_custom());
}

#[test]
fn custom_server_definition() {
    let s = MinecraftServerSettings::from_text(
        "executable=./run.sh\r\nline_parser=python3\r\nline_parser=parse.py\r\n",
    )
    .unwrap();
    assert_eq!(s.executable, "./run.sh");
    assert!(s.arguments.is_empty());
    assert_eq!(
        s.server_type,
        MinecraftServerType::Custom {
            line_parser: vec!["python3".to_string(), "parse.py".to_string()]
        }
    );
    assert!(s.is_custom());
}

#[test]
fn server_definition_without_executable() {
    assert_eq!(
        MinecraftServerSettings::from_text("directory=/srv\nargument=x").err(),
        Some(ServerFileError::MissingExecutable)
    );
}
