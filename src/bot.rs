//! What the chat bot decides and says: which server a request names, the
//! server list, the console command that relays a chat message, and the
//! texts of its notices.
use crate::events::{stop_text, JoinLeaveEvent, MinecraftServerStopReason};
use crate::server::{opt_text, texts, MinecraftServer};
use crate::text::{chat_escaped, escape_chat, same_text};
use vstd::prelude::*;
use vstd::string::*;

verus! {

/// The short name of `s` is `q`.
pub open spec fn short_is(s: MinecraftServer, q: Seq<char>) -> bool {
    s.short is Some && s.short->0@ == q
}

/// The name of `s` is `q`.
pub open spec fn name_is(s: MinecraftServer, q: Seq<char>) -> bool {
    s.name@ == q
}

/// The server that a request for `q` names: the first one whose short name
/// is `q`, else the first one whose name is `q`.
pub open spec fn named_server(servers: Seq<MinecraftServer>, q: Seq<char>) -> Option<int> {
    if exists|i: int| 0 <= i < servers.len() && short_is(#[trigger] servers[i], q) {
        Some(
            choose|i: int|
                0 <= i < servers.len() && short_is(#[trigger] servers[i], q) && forall|j: int|
                    0 <= j < i ==> !short_is(#[trigger] servers[j], q),
        )
    } else if exists|i: int| 0 <= i < servers.len() && name_is(#[trigger] servers[i], q) {
        Some(
            choose|i: int|
                0 <= i < servers.len() && name_is(#[trigger] servers[i], q) && forall|j: int|
                    0 <= j < i ==> !name_is(#[trigger] servers[j], q),
        )
    } else {
        None
    }
}

fn first_short(servers: &Vec<MinecraftServer>, q: &str) -> (r: Option<usize>)
    ensures
        match r {
            Some(i) => i < servers@.len() && short_is(servers@[i as int], q@) && forall|j: int|
                0 <= j < i ==> !short_is(#[trigger] servers@[j], q@),
            None => forall|j: int| 0 <= j < servers@.len() ==> !short_is(#[trigger] servers@[j], q@),
        },
{
    let mut i: usize = 0;
    while i < servers.len()
        invariant
            i <= servers@.len(),
            forall|j: int| 0 <= j < i ==> !short_is(#[trigger] servers@[j], q@),
        decreases servers@.len() - i,
    {
        if let Some(short) = &servers[i].short {
            if same_text(short.as_str(), q) {
                return Some(i);
            }
        }
        i += 1;
    }
    None
}

fn first_name(servers: &Vec<MinecraftServer>, q: &str) -> (r: Option<usize>)
    ensures
        match r {
            Some(i) => i < servers@.len() && name_is(servers@[i as int], q@) && forall|j: int|
                0 <= j < i ==> !name_is(#[trigger] servers@[j], q@),
            None => forall|j: int| 0 <= j < servers@.len() ==> !name_is(#[trigger] servers@[j], q@),
        },
{
    let mut i: usize = 0;
    while i < servers.len()
        invariant
            i <= servers@.len(),
            forall|j: int| 0 <= j < i ==> !name_is(#[trigger] servers@[j], q@),
        decreases servers@.len() - i,
    {
        if same_text(servers[i].name.as_str(), q) {
            return Some(i);
        }
        i += 1;
    }
    None
}

/// The index of the server that a request for `q` names, matching short
/// names first and full names second.
pub fn find_server(servers: &Vec<MinecraftServer>, q: &str) -> (r: Option<usize>)
    ensures
        match r {
            Some(i) => named_server(servers@, q@) == Some(i as int),
            None => named_server(servers@, q@) is None,
        },
{
    match first_short(servers, q) {
        Some(i) => {
            assert(forall|a: int, b: int|
                0 <= a < servers@.len() && short_is(servers@[a], q@) && (forall|j: int|
                    0 <= j < a ==> !short_is(#[trigger] servers@[j], q@)) && 0 <= b
                    < servers@.len() && short_is(servers@[b], q@) && (forall|j: int|
                    0 <= j < b ==> !short_is(#[trigger] servers@[j], q@)) ==> a == b);
            Some(i)
        },
        None => {
            let r = first_name(servers, q);
            assert(forall|a: int, b: int|
                0 <= a < servers@.len() && name_is(servers@[a], q@) && (forall|j: int|
                    0 <= j < a ==> !name_is(#[trigger] servers@[j], q@)) && 0 <= b
                    < servers@.len() && name_is(servers@[b], q@) && (forall|j: int|
                    0 <= j < b ==> !name_is(#[trigger] servers@[j], q@)) ==> a == b);
            r
        },
    }
}

/// What a request to start a server leads to.
#[derive(Clone, Copy, PartialEq, Eq, Structural, Debug)]
pub enum StartDecision {
    /// Start the server at this index.
    Start(usize),
    /// The server at this index runs already; start nothing.
    AlreadyRunning(usize),
    /// No server has that name.
    NotFound,
}

/// Decides a request to start the server named `q`, while the server at
/// `current` runs, if any: only one server runs at a time.
pub fn decide_start(servers: &Vec<MinecraftServer>, current: Option<usize>, q: &str) -> (r:
    StartDecision)
    ensures
        r == match named_server(servers@, q@) {
            None => StartDecision::NotFound,
            Some(i) => match current {
                Some(c) => StartDecision::AlreadyRunning(c),
                None => StartDecision::Start(i as usize),
            },
        },
{
    match find_server(servers, q) {
        None => StartDecision::NotFound,
        Some(i) => match current {
            Some(c) => StartDecision::AlreadyRunning(c),
            None => StartDecision::Start(i),
        },
    }
}

/// One entry of the server list: `\n- `, the short name in parentheses, the name.
pub open spec fn list_entry(s: MinecraftServer) -> Seq<char> {
    "\n- "@ + (if s.short is Some {
        "("@ + s.short->0@ + ") "@
    } else {
        Seq::empty()
    }) + s.name@
}

/// The server list: a heading, then one entry per server, in order.
pub open spec fn list_text(servers: Seq<MinecraftServer>) -> Seq<char>
    decreases servers.len(),
{
    if servers.len() == 0 {
        "Available servers:"@
    } else {
        list_text(servers.drop_last()) + list_entry(servers.last())
    }
}

/// The text that lists the servers that can be started.
pub fn server_list(servers: &Vec<MinecraftServer>) -> (r: String)
    ensures
        r@ == list_text(servers@),
{
    let mut acc = String::from_str("Available servers:");
    let mut i: usize = 0;
    while i < servers.len()
        invariant
            i <= servers@.len(),
            acc@ == list_text(servers@.subrange(0, i as int)),
        decreases servers@.len() - i,
    {
        let server = &servers[i];
        proof {
            assert(servers@.subrange(0, i + 1).drop_last() =~= servers@.subrange(0, i as int));
        }
        acc.append("\n- ");
        if let Some(short) = &server.short {
            acc.append("(");
            acc.append(short.as_str());
            acc.append(") ");
        }
        acc.append(server.name.as_str());
        proof {
            let e = list_entry(*server);
            assert(acc@ =~= list_text(servers@.subrange(0, i as int)) + e);
        }
        i += 1;
    }
    assert(servers@.subrange(0, servers@.len() as int) =~= servers@);
    acc
}

/// The console command that shows a chat message of `author` to every player.
pub open spec fn relay_command(author: Seq<char>, message: Seq<char>) -> Seq<char> {
    "tellraw @a \"<"@ + author + "> "@ + chat_escaped(message) + "\""@
}

/// The console command that relays a chat message to the game, with the
/// message's backslashes and line breaks escaped.
pub fn tellraw_command(author: &str, message: &str) -> (r: String)
    ensures
        r@ == relay_command(author@, message@),
{
    let mut r = String::from_str("tellraw @a \"<");
    r.append(author);
    r.append("> ");
    let escaped = escape_chat(message);
    r.append(escaped.as_str());
    r.append("\"");
    r
}

/// The address text from two lookups: one address if both agree or only one
/// answered, both if they differ, `unknown` if neither answered.
pub open spec fn ip_text(ip1: Option<Seq<char>>, ip2: Option<Seq<char>>) -> Seq<char> {
    match (ip1, ip2) {
        (Some(a), Some(b)) => if a == b {
            a
        } else {
            a + " / "@ + b
        },
        (Some(a), None) => a,
        (None, Some(b)) => b,
        (None, None) => "unknown"@,
    }
}

/// Combines the answers of two address lookups into one text.
pub fn combine_ips(ip1: Option<String>, ip2: Option<String>) -> (r: String)
    ensures
        r@ == ip_text(
            match ip1 {
                Some(a) => Some(a@),
                None => None,
            },
            match ip2 {
                Some(b) => Some(b@),
                None => None,
            },
        ),
{
    match (ip1, ip2) {
        (Some(a), Some(b)) => {
            if same_text(a.as_str(), b.as_str()) {
                a
            } else {
                let mut r = a;
                r.append(" / ");
                r.append(b.as_str());
                r
            }
        },
        (Some(a), None) => a,
        (None, Some(b)) => b,
        (None, None) => String::from_str("unknown"),
    }
}

/// The notice that a player joined or left.
pub open spec fn join_leave_notice(username: Seq<char>, joined: bool) -> Seq<char> {
    username + if joined {
        " joined"@
    } else {
        " left"@
    }
}

/// The text of the notice that a player joined or left.
pub fn join_leave_text(e: &JoinLeaveEvent) -> (r: String)
    ensures
        r@ == join_leave_notice(e.username@, e.joined),
{
    let mut r = e.username.clone();
    if e.joined {
        r.append(" joined");
    } else {
        r.append(" left");
    }
    r
}

/// The notice that a server was started, with its address where it is known.
pub open spec fn started_notice(ip: Option<Seq<char>>) -> Seq<char> {
    match ip {
        Some(a) => "Server was started, IP: "@ + a,
        None => "Server was started"@,
    }
}

/// The text of the notice that a server was started.
pub fn server_started_text(ip: Option<&str>) -> (r: String)
    ensures
        r@ == started_notice(
            match ip {
                Some(a) => Some(a@),
                None => None,
            },
        ),
{
    match ip {
        Some(a) => {
            let mut r = String::from_str("Server was started, IP: ");
            r.append(a);
            r
        },
        None => String::from_str("Server was started"),
    }
}

/// The title of the notice that a server stopped.
pub fn server_stopped_title(reason: Option<&MinecraftServerStopReason>) -> (r: String)
    ensures
        r@ == match reason {
            Some(s) => stop_text(s@),
            None => "Stopped."@,
        },
{
    match reason {
        Some(s) => s.describe(),
        None => String::from_str("Stopped."),
    }
}

/// The answer to a request to start a server while another one runs.
pub fn already_running_text(name: &str) -> (r: String)
    ensures
        r@ == "Already running '"@ + name@ + "'! (stop the server before starting it)"@,
{
    let mut r = String::from_str("Already running '");
    r.append(name);
    r.append("'! (stop the server before starting it)");
    r
}

/// Whether a character is whitespace.
pub uninterp spec fn whitespace(c: char) -> bool;

/// The lower-case mapping of a character.
pub uninterp spec fn lowercase_of(c: char) -> Seq<char>;

/// The upper-case mapping of a character.
pub uninterp spec fn uppercase_of(c: char) -> Seq<char>;

/// Relies on `char::is_whitespace`: the Unicode White_Space property, which
/// depends on the character alone.
#[verifier::external_body]
fn is_space(c: char) -> (r: bool)
    ensures
        r == whitespace(c),
{
    c.is_whitespace()
}

/// Relies on `char::to_lowercase`: the lower-case mapping of the character,
/// which depends on the character alone.
#[verifier::external_body]
fn lower_text(c: char) -> (r: String)
    ensures
        r@ == lowercase_of(c),
{
    c.to_lowercase().collect()
}

/// Relies on `char::to_uppercase`: the upper-case mapping of the character,
/// which depends on the character alone.
#[verifier::external_body]
fn upper_text(c: char) -> (r: String)
    ensures
        r@ == uppercase_of(c),
{
    c.to_uppercase().collect()
}

/// The first character of `s` that is not whitespace.
pub open spec fn first_visible(s: Seq<char>) -> Option<char>
    decreases s.len(),
{
    if s.len() == 0 {
        None
    } else if !whitespace(s[0]) {
        Some(s[0])
    } else {
        first_visible(s.drop_first())
    }
}

/// A word of `s` starts at index `i`.
pub open spec fn word_start(s: Seq<char>, i: int) -> bool {
    0 <= i < s.len() && !whitespace(s[i]) && (i == 0 || whitespace(s[i - 1]))
}

/// The upper-cased first characters of the words of `s`.
pub open spec fn initials(s: Seq<char>) -> Seq<char>
    decreases s.len(),
{
    if s.len() == 0 {
        Seq::empty()
    } else {
        initials(s.drop_last()) + if word_start(s, s.len() - 1) {
            uppercase_of(s.last())
        } else {
            Seq::empty()
        }
    }
}

/// The short name a server called `name` gets when `taken` are in use: its
/// first letter in lower case, else its initials in upper case, else none.
pub open spec fn pick_short(taken: Seq<Seq<char>>, name: Seq<char>) -> Option<Seq<char>> {
    if first_visible(name) is Some && !taken.contains(lowercase_of(first_visible(name)->0)) {
        Some(lowercase_of(first_visible(name)->0))
    } else if initials(name).len() > 0 && !taken.contains(initials(name)) {
        Some(initials(name))
    } else {
        None
    }
}

/// The short names in use and those given, for servers named `names` in order.
pub open spec fn shorts_of(names: Seq<Seq<char>>) -> (Seq<Seq<char>>, Seq<Option<Seq<char>>>)
    decreases names.len(),
{
    if names.len() == 0 {
        (Seq::empty(), Seq::empty())
    } else {
        let (taken, given) = shorts_of(names.drop_last());
        let c = pick_short(taken, names.last());
        (
            if c is Some {
                taken.push(c->0)
            } else {
                taken
            },
            given.push(c),
        )
    }
}

/// The names of the servers.
pub open spec fn server_names(servers: Seq<MinecraftServer>) -> Seq<Seq<char>> {
    servers.map_values(|s: MinecraftServer| s.name@)
}

fn first_visible_char(s: &str) -> (r: Option<char>)
    ensures
        r == first_visible(s@),
{
    let n = s.unicode_len();
    let mut i: usize = 0;
    assert(s@.subrange(0, n as int) =~= s@);
    while i < n
        invariant
            n == s@.len(),
            i <= n,
            first_visible(s@) == first_visible(s@.subrange(i as int, n as int)),
        decreases n - i,
    {
        let c = s.get_char(i);
        proof {
            let rest = s@.subrange(i as int, n as int);
            assert(rest[0] == c);
            assert(rest.drop_first() =~= s@.subrange(i + 1, n as int));
        }
        if !is_space(c) {
            return Some(c);
        }
        i += 1;
    }
    None
}

fn initials_text(s: &str) -> (r: String)
    ensures
        r@ == initials(s@),
{
    let n = s.unicode_len();
    let mut r = String::new();
    let mut prev_space = true;
    let mut i: usize = 0;
    while i < n
        invariant
            n == s@.len(),
            i <= n,
            r@ == initials(s@.subrange(0, i as int)),
            prev_space == (i == 0 || whitespace(s@[i - 1])),
        decreases n - i,
    {
        let c = s.get_char(i);
        let space = is_space(c);
        proof {
            let pre = s@.subrange(0, i + 1);
            assert(pre.drop_last() =~= s@.subrange(0, i as int));
            assert(pre.last() == c);
            assert(i > 0 ==> pre[i - 1] == s@[i - 1]);
            assert(word_start(pre, i as int) == (!space && prev_space));
        }
        if !space && prev_space {
            let u = upper_text(c);
            r.append(u.as_str());
        }
        prev_space = space;
        i += 1;
    }
    assert(s@.subrange(0, n as int) =~= s@);
    r
}

fn contains_text(v: &Vec<String>, t: &str) -> (r: bool)
    ensures
        r == texts(v@).contains(t@),
{
    let mut i: usize = 0;
    while i < v.len()
        invariant
            i <= v@.len(),
            forall|j: int| 0 <= j < i ==> v@[j]@ != t@,
        decreases v@.len() - i,
    {
        if same_text(v[i].as_str(), t) {
            assert(texts(v@)[i as int] == t@);
            return true;
        }
        i += 1;
    }
    assert forall|j: int| 0 <= j < texts(v@).len() implies texts(v@)[j] != t@ by {
        assert(texts(v@)[j] == v@[j]@);
    }
    false
}

/// Gives each server a distinct short name where one can be had, in order:
/// the first letter of its name in lower case, or else the upper-cased
/// initials of its words, whichever no earlier server has taken.
pub fn short_names(servers: &Vec<MinecraftServer>) -> (r: Vec<Option<String>>)
    ensures
        r@.map_values(|o: Option<String>| opt_text(o)) == shorts_of(server_names(servers@)).1,
{
    let mut taken: Vec<String> = Vec::new();
    let mut given: Vec<Option<String>> = Vec::new();
    let mut i: usize = 0;
    assert(server_names(servers@).subrange(0, 0) =~= Seq::empty());
    assert(texts(taken@) =~= Seq::empty());
    assert(given@.map_values(|o: Option<String>| opt_text(o)) =~= Seq::empty());
    while i < servers.len()
        invariant
            i <= servers@.len(),
            (texts(taken@), given@.map_values(|o: Option<String>| opt_text(o))) == shorts_of(
                server_names(servers@).subrange(0, i as int),
            ),
        decreases servers@.len() - i,
    {
        let name = servers[i].name.as_str();
        let ghost names = server_names(servers@);
        let ghost before = texts(taken@);
        proof {
            assert(names.subrange(0, i + 1).drop_last() =~= names.subrange(0, i as int));
            assert(names.subrange(0, i + 1).last() == name@);
        }
        let mut pick: Option<String> = None;
        if let Some(c) = first_visible_char(name) {
            let lower = lower_text(c);
            if !contains_text(&taken, lower.as_str()) {
                pick = Some(lower);
            }
        }
        if pick.is_none() {
            let ini = initials_text(name);
            if ini.unicode_len() > 0 && !contains_text(&taken, ini.as_str()) {
                pick = Some(ini);
            }
        }
        proof {
            assert(opt_text(pick) == pick_short(before, name@));
        }
        let ghost given_before = given@.map_values(|o: Option<String>| opt_text(o));
        match &pick {
            Some(p) => {
                taken.push(p.clone());
                assert(texts(taken@) =~= before.push(p@));
            },
            None => {},
        }
        given.push(pick);
        assert(given@.map_values(|o: Option<String>| opt_text(o)) =~= given_before.push(
            pick_short(before, name@),
        ));
        i += 1;
    }
    assert(server_names(servers@).subrange(0, servers@.len() as int) =~= server_names(servers@));
    given
}

} // verus!
