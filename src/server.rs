//! How a server is launched, and the servers that the bot offers.
use crate::settings::{lines_from, name_value, next_line, split_name_value, trim_text, trimmed};
use crate::text::same_text;
use vstd::prelude::*;
use vstd::string::*;

verus! {

/// How the console output of a server is read.
#[derive(Clone, Debug, PartialEq, Eq)]
pub enum MinecraftServerType {
    /// The standard console format, read by the built-in parser.
    Vanilla,
    /// A non-standard format: each output line goes to an auxiliary parser
    /// process, started with this program and arguments, whose answer is read
    /// instead.
    Custom { line_parser: Vec<String> },
}

/// How to launch and read one server.
#[derive(Clone, Debug, PartialEq, Eq)]
pub struct MinecraftServerSettings {
    pub directory: String,
    pub executable: String,
    pub arguments: Vec<String>,
    pub server_type: MinecraftServerType,
}

impl MinecraftServerSettings {
    /// Whether an auxiliary line parser runs beside the server.
    pub fn is_custom(&self) -> (r: bool)
        ensures
            r == self.server_type is Custom,
    {
        match &self.server_type {
            MinecraftServerType::Custom { .. } => true,
            MinecraftServerType::Vanilla => false,
        }
    }
}

/// A server that the bot can start, under its name and an optional short name.
#[derive(Debug, PartialEq, Eq)]
pub struct MinecraftServer {
    pub name: String,
    pub short: Option<String>,
    pub settings: MinecraftServerSettings,
}

/// A server definition that cannot be used.
#[derive(Clone, Copy, PartialEq, Eq, Structural, Debug)]
pub enum ServerFileError {
    /// No `executable` line was given.
    MissingExecutable,
}

/// A server definition read so far, in contracts.
pub struct ServerFileModel {
    pub directory: Seq<char>,
    pub executable: Option<Seq<char>>,
    pub arguments: Seq<Seq<char>>,
    pub line_parser: Seq<Seq<char>>,
}

/// The texts of a list of strings.
pub open spec fn texts(v: Seq<String>) -> Seq<Seq<char>> {
    v.map_values(|s: String| s@)
}

/// The text of an optional string.
pub open spec fn opt_text(o: Option<String>) -> Option<Seq<char>> {
    match o {
        Some(e) => Some(e@),
        None => None,
    }
}

/// What one line of a server definition does.
pub open spec fn apply_server_line(m: ServerFileModel, l: Seq<char>) -> ServerFileModel {
    let (name, value) = name_value(l);
    if name == "directory"@ {
        ServerFileModel { directory: trimmed(value), ..m }
    } else if name == "executable"@ {
        ServerFileModel { executable: Some(trimmed(value)), ..m }
    } else if name == "argument"@ {
        ServerFileModel { arguments: m.arguments.push(trimmed(value)), ..m }
    } else if name == "line_parser"@ {
        ServerFileModel { line_parser: m.line_parser.push(trimmed(value)), ..m }
    } else {
        m
    }
}

/// A server definition after reading `lines` in order.
pub open spec fn apply_server_lines(m: ServerFileModel, lines: Seq<Seq<char>>) -> ServerFileModel
    decreases lines.len(),
{
    if lines.len() == 0 {
        m
    } else {
        apply_server_lines(apply_server_line(m, lines[0]), lines.drop_first())
    }
}

/// The server definition that a text gives.
pub open spec fn server_file_of(text: Seq<char>) -> ServerFileModel {
    apply_server_lines(
        ServerFileModel {
            directory: Seq::empty(),
            executable: None,
            arguments: Seq::empty(),
            line_parser: Seq::empty(),
        },
        lines_from(text, 0),
    )
}

impl MinecraftServerSettings {
    /// Reads a server definition from `name=value` lines: `directory`,
    /// `executable`, and `argument` lines in order; `line_parser` lines give
    /// the program and arguments of an auxiliary parser, which makes the
    /// server a custom one. Unknown names are ignored.
    pub fn from_text(text: &str) -> (r: Result<MinecraftServerSettings, ServerFileError>)
        ensures
            ({
                let m = server_file_of(text@);
                match r {
                    Ok(s) => m.executable == Some(s.executable@) && s.directory@ == m.directory
                        && texts(s.arguments@) == m.arguments && match s.server_type {
                        MinecraftServerType::Vanilla => m.line_parser.len() == 0,
                        MinecraftServerType::Custom { line_parser } => m.line_parser.len() > 0
                            && texts(line_parser@) == m.line_parser,
                    },
                    Err(ServerFileError::MissingExecutable) => m.executable is None,
                }
            }),
    {
        proof {
            reveal_strlit("directory");
            reveal_strlit("executable");
            reveal_strlit("argument");
            reveal_strlit("line_parser");
        }
        let n = text.unicode_len();
        let mut directory = String::new();
        let mut executable: Option<String> = None;
        let mut arguments: Vec<String> = Vec::new();
        let mut line_parser: Vec<String> = Vec::new();
        let mut start: usize = 0;
        assert(texts(arguments@) =~= Seq::empty());
        assert(texts(line_parser@) =~= Seq::empty());
        while start < n
            invariant
                n == text@.len(),
                start <= n,
                server_file_of(text@) == apply_server_lines(
                    ServerFileModel {
                        directory: directory@,
                        executable: opt_text(executable),
                        arguments: texts(arguments@),
                        line_parser: texts(line_parser@),
                    },
                    lines_from(text@, start as nat),
                ),
            decreases n - start,
        {
            let ghost before = ServerFileModel {
                directory: directory@,
                executable: opt_text(executable),
                arguments: texts(arguments@),
                line_parser: texts(line_parser@),
            };
            let ghost rest = lines_from(text@, start as nat);
            let (line, next) = next_line(text, start);
            let (name, value) = split_name_value(line);
            proof {
                assert(rest[0] == line@);
                assert(rest.drop_first() =~= lines_from(text@, next as nat));
            }
            if same_text(name, "directory") {
                directory = String::from_str(trim_text(value));
            } else if same_text(name, "executable") {
                executable = Some(String::from_str(trim_text(value)));
            } else if same_text(name, "argument") {
                arguments.push(String::from_str(trim_text(value)));
                assert(texts(arguments@) =~= before.arguments.push(trimmed(value@)));
            } else if same_text(name, "line_parser") {
                line_parser.push(String::from_str(trim_text(value)));
                assert(texts(line_parser@) =~= before.line_parser.push(trimmed(value@)));
            }
            start = next;
        }
        match executable {
            None => Err(ServerFileError::MissingExecutable),
            Some(executable) => {
                let server_type = if line_parser.len() == 0 {
                    MinecraftServerType::Vanilla
                } else {
                    MinecraftServerType::Custom { line_parser }
                };
                Ok(MinecraftServerSettings { directory, executable, arguments, server_type })
            },
        }
    }
}

} // verus!
