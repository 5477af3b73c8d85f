//! The bot's settings, read from `name=value` lines.
use crate::text::same_text;
use vstd::prelude::*;
use vstd::string::*;

verus! {

/// The text with leading and trailing whitespace removed.
pub uninterp spec fn trimmed(s: Seq<char>) -> Seq<char>;

/// Relies on `str::trim`: removes leading and trailing whitespace, a
/// function of the characters alone.
#[verifier::external_body]
pub(crate) fn trim_text(s: &str) -> (r: &str)
    ensures
        r@ == trimmed(s@),
{
    s.trim()
}

/// The bot's settings.
#[derive(Clone, Debug, PartialEq, Eq)]
pub struct Settings {
    pub channel_id_info: u64,
    pub channel_id_chat: u64,
    pub send_join_and_leave_messages: bool,
    pub send_start_stop_messages_in_chat: bool,
    pub get_my_ip_url1: String,
    pub get_my_ip_url2: String,
}

/// A setting that must be given is missing or not a number.
#[derive(Clone, Copy, PartialEq, Eq, Structural, Debug)]
pub enum SettingsError {
    MissingChannelIdInfo,
    MissingChannelIdChat,
}

/// The settings read so far, in contracts.
pub struct SettingsModel {
    pub channel_id_info: Option<u64>,
    pub channel_id_chat: Option<u64>,
    pub send_join_and_leave_messages: bool,
    pub send_start_stop_messages_in_chat: bool,
    pub get_my_ip_url1: Seq<char>,
    pub get_my_ip_url2: Seq<char>,
}

/// What is known before any line is read.
pub open spec fn initial_model() -> SettingsModel {
    SettingsModel {
        channel_id_info: None,
        channel_id_chat: None,
        send_join_and_leave_messages: false,
        send_start_stop_messages_in_chat: false,
        get_my_ip_url1: Seq::empty(),
        get_my_ip_url2: Seq::empty(),
    }
}

/// The first index at or after `i` where `c` stands.
pub open spec fn first_from(s: Seq<char>, c: char, i: nat) -> Option<nat>
    decreases s.len() - i,
{
    if i >= s.len() {
        None
    } else if s[i as int] == c {
        Some(i)
    } else {
        first_from(s, c, i + 1)
    }
}

/// A line that ended in a newline, without a carriage return before it.
pub open spec fn strip_cr(l: Seq<char>) -> Seq<char> {
    if l.len() > 0 && l.last() == '\r' {
        l.drop_last()
    } else {
        l
    }
}

/// The lines of `s` from index `start`: split at newlines, a carriage return
/// before a newline dropped, no line after a final newline.
pub open spec fn lines_from(s: Seq<char>, start: nat) -> Seq<Seq<char>>
    decreases s.len() - start,
{
    if start >= s.len() {
        Seq::empty()
    } else {
        match first_from(s, '\n', start) {
            Some(k) => if start <= k < s.len() {
                seq![strip_cr(s.subrange(start as int, k as int))] + lines_from(s, k + 1)
            } else {
                Seq::empty()
            },
            None => seq![s.subrange(start as int, s.len() as int)],
        }
    }
}

/// A line split at its first `=`; a line without one is all name.
pub open spec fn name_value(l: Seq<char>) -> (Seq<char>, Seq<char>) {
    match first_from(l, '=', 0) {
        Some(k) => (l.subrange(0, k as int), l.subrange(k + 1int, l.len() as int)),
        None => (l, Seq::empty()),
    }
}

pub open spec fn is_digit(c: char) -> bool {
    '0' <= c && c <= '9'
}

/// The number that a run of decimal digits stands for.
pub open spec fn digits_value(s: Seq<char>) -> nat
    decreases s.len(),
{
    if s.len() == 0 {
        0
    } else {
        digits_value(s.drop_last()) * 10 + ((s.last() as u32) - 48) as nat
    }
}

/// The digits of a number, after an optional `+`.
pub open spec fn unsigned_digits(s: Seq<char>) -> Seq<char> {
    if s.len() > 0 && s[0] == '+' {
        s.drop_first()
    } else {
        s
    }
}

/// Every character is a decimal digit.
pub open spec fn all_digits(d: Seq<char>) -> bool {
    forall|i: int| 0 <= i < d.len() ==> is_digit(#[trigger] d[i])
}

/// An unsigned 64-bit number written in decimal, with an optional `+`.
pub open spec fn parsed_u64(s: Seq<char>) -> Option<u64> {
    let d = unsigned_digits(s);
    if d.len() > 0 && all_digits(d) && digits_value(d) <= u64::MAX {
        Some(digits_value(d) as u64)
    } else {
        None
    }
}

/// What one line does to the settings read so far.
pub open spec fn apply_line(m: SettingsModel, l: Seq<char>) -> SettingsModel {
    let (name, value) = name_value(l);
    if name == "channel_id_info"@ {
        SettingsModel { channel_id_info: parsed_u64(trimmed(value)), ..m }
    } else if name == "channel_id_chat"@ {
        SettingsModel { channel_id_chat: parsed_u64(trimmed(value)), ..m }
    } else if name == "get_my_ip_url1"@ {
        SettingsModel { get_my_ip_url1: trimmed(value), ..m }
    } else if name == "get_my_ip_url2"@ {
        SettingsModel { get_my_ip_url2: trimmed(value), ..m }
    } else if name == "send_join_and_leave_messages"@ {
        SettingsModel { send_join_and_leave_messages: value != "false"@, ..m }
    } else if name == "send_start_stop_messages_in_chat"@ {
        SettingsModel { send_start_stop_messages_in_chat: value != "false"@, ..m }
    } else {
        m
    }
}

/// The settings after reading `lines` in order: a later line wins.
pub open spec fn apply_lines(m: SettingsModel, lines: Seq<Seq<char>>) -> SettingsModel
    decreases lines.len(),
{
    if lines.len() == 0 {
        m
    } else {
        apply_lines(apply_line(m, lines[0]), lines.drop_first())
    }
}

/// The settings that a text gives.
pub open spec fn settings_of(text: Seq<char>) -> SettingsModel {
    apply_lines(initial_model(), lines_from(text, 0))
}

fn find_from(s: &str, c: char, start: usize) -> (r: Option<usize>)
    requires
        start <= s@.len(),
    ensures
        match r {
            Some(k) => first_from(s@, c, start as nat) == Some(k as nat) && start <= k < s@.len(),
            None => first_from(s@, c, start as nat) is None,
        },
{
    let n = s.unicode_len();
    let mut i: usize = start;
    while i < n
        invariant
            n == s@.len(),
            start <= i <= n,
            first_from(s@, c, start as nat) == first_from(s@, c, i as nat),
        decreases n - i,
    {
        if s.get_char(i) == c {
            return Some(i);
        }
        i += 1;
    }
    None
}

/// Reads an unsigned number written in decimal, with an optional `+`.
pub fn parse_u64(s: &str) -> (r: Option<u64>)
    ensures
        r == parsed_u64(s@),
{
    let n = s.unicode_len();
    let start: usize = if n > 0 && s.get_char(0) == '+' {
        1
    } else {
        0
    };
    let ghost d = s@.subrange(start as int, n as int);
    assert(d =~= unsigned_digits(s@));
    if start == n {
        return None;
    }
    let mut acc: u64 = 0;
    let mut over = false;
    let mut i: usize = start;
    while i < n
        invariant
            n == s@.len(),
            start <= i <= n,
            d == s@.subrange(start as int, n as int),
            d == unsigned_digits(s@),
            forall|k: int| start <= k < i ==> is_digit(#[trigger] s@[k]),
            over ==> digits_value(s@.subrange(start as int, i as int)) > u64::MAX,
            !over ==> acc == digits_value(s@.subrange(start as int, i as int)),
        decreases n - i,
    {
        let c = s.get_char(i);
        if c < '0' || c > '9' {
            assert(d[i - start] == c);
            assert(!is_digit(d[i - start]));
            assert(!all_digits(d));

            return None;
        }
        let dig: u64 = (c as u32 - 48) as u64;
        proof {
            assert(s@.subrange(start as int, i + 1).drop_last() =~= s@.subrange(
                start as int,
                i as int,
            ));
        }
        if !over {
            if acc > (u64::MAX - dig) / 10 {
                over = true;
            } else {
                acc = acc * 10 + dig;
            }
        }
        i += 1;
    }
    assert(s@.subrange(start as int, n as int) == d);
    assert(forall|k: int| 0 <= k < d.len() ==> d[k] == s@[k + start]);
    assert(all_digits(d));
    if over {
        None
    } else {
        Some(acc)
    }
}

/// `a` and `b` hold different characters.
fn differs(a: &str, b: &str) -> (r: bool)
    ensures
        r == (a@ != b@),
{
    !same_text(a, b)
}

/// The line of `text` that starts at `start`, and where the next one starts.
pub(crate) fn next_line(text: &str, start: usize) -> (r: (&str, usize))
    requires
        start < text@.len(),
    ensures
        start < r.1 <= text@.len(),
        lines_from(text@, start as nat) == seq![r.0@] + lines_from(text@, r.1 as nat),
{
    let n = text.unicode_len();
    let (line, next) = match find_from(text, '\n', start) {
        Some(k) => {
            let raw = text.substring_char(start, k);
            let len = raw.unicode_len();
            let l = if len > 0 && raw.get_char(len - 1) == '\r' {
                raw.substring_char(0, len - 1)
            } else {
                raw
            };
            proof {
                if raw@.len() > 0 {
                    assert(raw@.last() == raw@[len - 1]);
                    assert(raw@.drop_last() =~= raw@.subrange(0, raw@.len() - 1));
                }
            }
            (l, k + 1)
        },
        None => (text.substring_char(start, n), n),
    };
    proof {
        if next == n {
            assert(lines_from(text@, next as nat) =~= Seq::empty());
        }
        assert(lines_from(text@, start as nat) =~= seq![line@] + lines_from(text@, next as nat));
    }
    (line, next)
}

/// A line split at its first `=`.
pub(crate) fn split_name_value(line: &str) -> (r: (&str, &str))
    ensures
        name_value(line@) == (r.0@, r.1@),
{
    proof {
        reveal_strlit("");
    }
    let n = line.unicode_len();
    match find_from(line, '=', 0) {
        Some(k) => (line.substring_char(0, k), line.substring_char(k + 1, n)),
        None => (line, ""),
    }
}

impl SettingsModel {
    pub open spec fn from_draft(
        cii: Option<u64>,
        cic: Option<u64>,
        jl: bool,
        ss: bool,
        url1: Seq<char>,
        url2: Seq<char>,
    ) -> SettingsModel {
        SettingsModel {
            channel_id_info: cii,
            channel_id_chat: cic,
            send_join_and_leave_messages: jl,
            send_start_stop_messages_in_chat: ss,
            get_my_ip_url1: url1,
            get_my_ip_url2: url2,
        }
    }
}

impl Settings {
    /// Reads settings from `name=value` lines. Unknown names are ignored and a
    /// later line overrides an earlier one. Both channel ids must be given as
    /// numbers; the flags are on unless their value is `false`.
    pub fn from_text(text: &str) -> (r: Result<Settings, SettingsError>)
        ensures
            ({
                let m = settings_of(text@);
                match r {
                    Ok(s) => m.channel_id_info == Some(s.channel_id_info) && m.channel_id_chat
                        == Some(s.channel_id_chat) && s.send_join_and_leave_messages
                        == m.send_join_and_leave_messages && s.send_start_stop_messages_in_chat
                        == m.send_start_stop_messages_in_chat && s.get_my_ip_url1@
                        == m.get_my_ip_url1 && s.get_my_ip_url2@ == m.get_my_ip_url2,
                    Err(SettingsError::MissingChannelIdInfo) => m.channel_id_info is None,
                    Err(SettingsError::MissingChannelIdChat) => m.channel_id_info is Some
                        && m.channel_id_chat is None,
                }
            }),
    {
        proof {
            reveal_strlit("channel_id_info");
            reveal_strlit("channel_id_chat");
            reveal_strlit("get_my_ip_url1");
            reveal_strlit("get_my_ip_url2");
            reveal_strlit("send_join_and_leave_messages");
            reveal_strlit("send_start_stop_messages_in_chat");
            reveal_strlit("false");
        }
        let n = text.unicode_len();
        let mut cii: Option<u64> = None;
        let mut cic: Option<u64> = None;
        let mut jl = false;
        let mut ss = false;
        let mut url1 = String::new();
        let mut url2 = String::new();
        let mut start: usize = 0;
        while start < n
            invariant
                n == text@.len(),
                start <= n,
                settings_of(text@) == apply_lines(
                    SettingsModel::from_draft(cii, cic, jl, ss, url1@, url2@),
                    lines_from(text@, start as nat),
                ),
            decreases n - start,
        {
            let ghost before = SettingsModel::from_draft(cii, cic, jl, ss, url1@, url2@);
            let ghost rest = lines_from(text@, start as nat);
            let (line, next) = next_line(text, start);
            let (name, value) = split_name_value(line);
            proof {
                assert(rest[0] == line@);
                assert(rest.drop_first() =~= lines_from(text@, next as nat));
            }
            if same_text(name, "channel_id_info") {
                cii = parse_u64(trim_text(value));
            } else if same_text(name, "channel_id_chat") {
                cic = parse_u64(trim_text(value));
            } else if same_text(name, "get_my_ip_url1") {
                url1 = String::from_str(trim_text(value));
            } else if same_text(name, "get_my_ip_url2") {
                url2 = String::from_str(trim_text(value));
            } else if same_text(name, "send_join_and_leave_messages") {
                jl = differs(value, "false");
            } else if same_text(name, "send_start_stop_messages_in_chat") {
                ss = differs(value, "false");
            }
            proof {
                assert(SettingsModel::from_draft(cii, cic, jl, ss, url1@, url2@) == apply_line(
                    before,
                    line@,
                ));
            }
            start = next;
        }
        match (cii, cic) {
            (Some(channel_id_info), Some(channel_id_chat)) => Ok(
                Settings {
                    channel_id_info,
                    channel_id_chat,
                    send_join_and_leave_messages: jl,
                    send_start_stop_messages_in_chat: ss,
                    get_my_ip_url1: url1,
                    get_my_ip_url2: url2,
                },
            ),
            (None, _) => Err(SettingsError::MissingChannelIdInfo),
            (Some(_), None) => Err(SettingsError::MissingChannelIdChat),
        }
    }
}

} // verus!
