//! Classification of one console line of a standard server into an event.
//!
//! A line may start with a log prefix such as `[12:00:00] [Server thread/INFO]: `;
//! what follows the first `]: ` is the message. A message `<Name> text` is a chat
//! message, `Name joined the game` and `Name left the game` announce a player.
use crate::events::{ChatMessage, JoinLeaveEvent, MinecraftServerEventType};
use vstd::prelude::*;
use vstd::string::*;

verus! {

/// Why a line that looked like a known message could not be read as one.
#[derive(Debug, PartialEq, Eq)]
pub enum ParseError {
    /// The line starts like a chat message but has no `<Name> ` head.
    MalformedChatMessage,
}

/// The outcome of classifying one line.
#[derive(Debug, PartialEq, Eq)]
pub enum ParseOutput {
    Event(MinecraftServerEventType),
    Error(ParseError),
    Nothing,
}

/// What a classified line looks like in contracts.
pub enum LineModel {
    Nothing,
    Malformed,
    JoinLeave(Seq<char>, bool),
    Chat(Seq<char>, Seq<char>),
}

impl View for ParseOutput {
    type V = LineModel;

    open spec fn view(&self) -> LineModel {
        match self {
            ParseOutput::Event(MinecraftServerEventType::JoinLeave(j)) => LineModel::JoinLeave(
                j.username@,
                j.joined,
            ),
            ParseOutput::Event(MinecraftServerEventType::ChatMessage(c)) => LineModel::Chat(
                c.author@,
                c.message@,
            ),
            ParseOutput::Event(MinecraftServerEventType::Warning(_)) => LineModel::Nothing,
            ParseOutput::Error(_) => LineModel::Malformed,
            ParseOutput::Nothing => LineModel::Nothing,
        }
    }
}

/// `]: ` stands at index `i` of `s`.
pub open spec fn marker_at(s: Seq<char>, i: int) -> bool {
    0 <= i && i + 3 <= s.len() && s[i] == ']' && s[i + 1] == ':' && s[i + 2] == ' '
}

/// The first index at or after `i` where `]: ` stands.
pub open spec fn first_marker_from(s: Seq<char>, i: nat) -> Option<nat>
    decreases s.len() - i,
{
    if i + 3 > s.len() {
        None
    } else if marker_at(s, i as int) {
        Some(i)
    } else {
        first_marker_from(s, i + 1)
    }
}

/// The message of a line: what follows its log prefix, or the whole line.
pub open spec fn message_of(line: Seq<char>) -> Seq<char> {
    if line.len() > 0 && line[0] == '[' && first_marker_from(line, 0) is Some {
        line.subrange(first_marker_from(line, 0)->0 + 3int, line.len() as int)
    } else {
        line
    }
}

/// The first index at or after `i` that holds `>`.
pub open spec fn first_close_from(s: Seq<char>, i: nat) -> Option<nat>
    decreases s.len() - i,
{
    if i >= s.len() {
        None
    } else if s[i as int] == '>' {
        Some(i)
    } else {
        first_close_from(s, i + 1)
    }
}

/// `m` has a chat head `<Name> `: a non-empty name closed by `>` and a space.
pub open spec fn has_chat_head(m: Seq<char>) -> bool {
    &&& first_close_from(m, 1) is Some
    &&& first_close_from(m, 1)->0 >= 2
    &&& first_close_from(m, 1)->0 + 1 < m.len()
    &&& m[first_close_from(m, 1)->0 + 1int] == ' '
}

/// `s` ends with `suffix`.
pub open spec fn has_suffix(s: Seq<char>, suffix: Seq<char>) -> bool {
    suffix.len() <= s.len() && s.subrange(s.len() - suffix.len(), s.len() as int) == suffix
}

/// A player name: not empty, no spaces.
pub open spec fn is_name(n: Seq<char>) -> bool {
    n.len() > 0 && forall|i: int| 0 <= i < n.len() ==> n[i] != ' '
}

/// `m` is `suffix` preceded by a player name.
pub open spec fn announces(m: Seq<char>, suffix: Seq<char>) -> bool {
    has_suffix(m, suffix) && is_name(m.subrange(0, m.len() - suffix.len()))
}

/// The classification of a message.
pub open spec fn classify_message(m: Seq<char>) -> LineModel {
    if m.len() > 0 && m[0] == '<' {
        if has_chat_head(m) {
            let k = first_close_from(m, 1)->0 as int;
            LineModel::Chat(m.subrange(1, k), m.subrange(k + 2, m.len() as int))
        } else {
            LineModel::Malformed
        }
    } else if announces(m, " joined the game"@) {
        LineModel::JoinLeave(m.subrange(0, m.len() - 16), true)
    } else if announces(m, " left the game"@) {
        LineModel::JoinLeave(m.subrange(0, m.len() - 14), false)
    } else {
        LineModel::Nothing
    }
}

/// The classification of a console line.
pub open spec fn classify_line(line: Seq<char>) -> LineModel {
    classify_message(message_of(line))
}

fn find_marker(s: &str) -> (r: Option<usize>)
    ensures
        match r {
            Some(i) => first_marker_from(s@, 0) == Some(i as nat) && i + 3 <= s@.len(),
            None => first_marker_from(s@, 0) is None,
        },
{
    let n = s.unicode_len();
    let mut i: usize = 0;
    while i < n && n - i >= 3
        invariant
            n == s@.len(),
            i <= n,
            first_marker_from(s@, 0) == first_marker_from(s@, i as nat),
        decreases n - i,
    {
        if s.get_char(i) == ']' && s.get_char(i + 1) == ':' && s.get_char(i + 2) == ' ' {
            return Some(i);
        }
        i += 1;
    }
    None
}

fn find_close(s: &str) -> (r: Option<usize>)
    ensures
        match r {
            Some(i) => first_close_from(s@, 1) == Some(i as nat) && i < s@.len(),
            None => first_close_from(s@, 1) is None,
        },
{
    let n = s.unicode_len();
    let mut i: usize = 1;
    while i < n
        invariant
            n == s@.len(),
            1 <= i,
            first_close_from(s@, 1) == first_close_from(s@, i as nat),
        decreases n - i,
    {
        if s.get_char(i) == '>' {
            return Some(i);
        }
        i += 1;
    }
    None
}

/// Whether `s` ends with `suffix`.
pub fn ends_with(s: &str, suffix: &str) -> (r: bool)
    ensures
        r == has_suffix(s@, suffix@),
{
    let n = s.unicode_len();
    let m = suffix.unicode_len();
    if m > n {
        return false;
    }
    let start = n - m;
    let mut j: usize = 0;
    while j < m
        invariant
            n == s@.len(),
            m == suffix@.len(),
            start == n - m,
            j <= m,
            forall|k: int| 0 <= k < j ==> s@[start + k] == suffix@[k],
        decreases m - j,
    {
        if s.get_char(start + j) != suffix.get_char(j) {
            proof {
                let t = s@.subrange(start as int, n as int);
                assert(t[j as int] != suffix@[j as int]);
            }
            return false;
        }
        j += 1;
    }
    assert(s@.subrange(start as int, n as int) =~= suffix@);
    true
}

fn no_spaces(s: &str) -> (r: bool)
    ensures
        r == (forall|i: int| 0 <= i < s@.len() ==> s@[i] != ' '),
{
    let n = s.unicode_len();
    let mut i: usize = 0;
    while i < n
        invariant
            n == s@.len(),
            i <= n,
            forall|k: int| 0 <= k < i ==> s@[k] != ' ',
        decreases n - i,
    {
        if s.get_char(i) == ' ' {
            return false;
        }
        i += 1;
    }
    true
}

fn announcement(m: &str, suffix: &str) -> (r: Option<String>)
    ensures
        match r {
            Some(name) => announces(m@, suffix@) && name@ == m@.subrange(
                0,
                m@.len() - suffix@.len(),
            ),
            None => !announces(m@, suffix@),
        },
{
    if !ends_with(m, suffix) {
        return None;
    }
    let end = m.unicode_len() - suffix.unicode_len();
    let name = m.substring_char(0, end);
    if end > 0 && no_spaces(name) {
        Some(String::from_str(name))
    } else {
        None
    }
}

fn classify(m: &str) -> (r: ParseOutput)
    ensures
        r@ == classify_message(m@),
{
    let n = m.unicode_len();
    proof {
        reveal_strlit(" joined the game");
        reveal_strlit(" left the game");
    }
    if n > 0 && m.get_char(0) == '<' {
        match find_close(m) {
            Some(k) => {
                if k >= 2 && k + 1 < n && m.get_char(k + 1) == ' ' {
                    let author = String::from_str(m.substring_char(1, k));
                    let message = String::from_str(m.substring_char(k + 2, n));
                    ParseOutput::Event(
                        MinecraftServerEventType::ChatMessage(ChatMessage { author, message }),
                    )
                } else {
                    ParseOutput::Error(ParseError::MalformedChatMessage)
                }
            },
            None => ParseOutput::Error(ParseError::MalformedChatMessage),
        }
    } else if let Some(username) = announcement(m, " joined the game") {
        ParseOutput::Event(
            MinecraftServerEventType::JoinLeave(JoinLeaveEvent { username, joined: true }),
        )
    } else if let Some(username) = announcement(m, " left the game") {
        ParseOutput::Event(
            MinecraftServerEventType::JoinLeave(JoinLeaveEvent { username, joined: false }),
        )
    } else {
        ParseOutput::Nothing
    }
}

/// Classifies one console line: a chat message, a join or leave
/// announcement, a malformed chat line, or nothing of interest.
pub fn parse_line(line: &str) -> (r: ParseOutput)
    ensures
        r@ == classify_line(line@),
{
    let n = line.unicode_len();
    if n > 0 && line.get_char(0) == '[' {
        if let Some(i) = find_marker(line) {
            return classify(line.substring_char(i + 3, n));
        }
    }
    classify(line)
}

/// The chat line of `name` saying `text`.
pub open spec fn chat_line(name: Seq<char>, text: Seq<char>) -> Seq<char> {
    seq!['<'] + name + seq!['>', ' '] + text
}

proof fn lemma_close_after_name(name: Seq<char>, text: Seq<char>, i: nat)
    requires
        1 <= i <= name.len() + 1,
        forall|k: int| 0 <= k < name.len() ==> name[k] != '>',
    ensures
        first_close_from(chat_line(name, text), i) == Some((name.len() + 1) as nat),
    decreases name.len() + 1 - i,
{
    let line = chat_line(name, text);
    if i < name.len() + 1 {
        assert(line[i as int] == name[i - 1]);
        lemma_close_after_name(name, text, i + 1);
    } else {
        assert(line[i as int] == '>');
    }
}

/// A line `<Name> text`, with a non-empty name that holds no `>`, is a chat
/// message of that author with that text.
pub proof fn lemma_chat_line_parses(name: Seq<char>, text: Seq<char>)
    requires
        name.len() > 0,
        forall|k: int| 0 <= k < name.len() ==> name[k] != '>',
    ensures
        classify_line(chat_line(name, text)) == LineModel::Chat(name, text),
{
    let line = chat_line(name, text);
    lemma_close_after_name(name, text, 1);
    let k: int = name.len() + 1int;
    assert(line[0] == '<');
    assert(line[k + 1] == ' ');
    assert(message_of(line) == line);
    assert(line.subrange(1, k) =~= name);
    assert(line.subrange(k + 2, line.len() as int) =~= text);
}

} // verus!
