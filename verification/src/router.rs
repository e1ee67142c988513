//! How an incoming chat message becomes a command: the bot's name, the
//! admin list from the configuration, prefix handling in group rooms, and
//! who may run which command.
use vstd::prelude::*;
use crate::access::AccessControl;
use crate::text::{
    cat, chars_of, lowercase, owned, push_char, string_of, to_lowercase, trim, trim_str,
};

verus! {

// ---------------------------------------------------------------------------
// Configuration
// ---------------------------------------------------------------------------

/// `s` without its leading `c`s (`trim_start_matches(c)`).
pub open spec fn strip_leading(s: Seq<char>, c: char) -> Seq<char>
    decreases s.len(),
{
    if s.len() > 0 && s[0] == c {
        strip_leading(s.drop_first(), c)
    } else {
        s
    }
}

/// The part of `s` before its first `c`, or all of `s`
/// (`split(c).next()`).
pub open spec fn before_char(s: Seq<char>, c: char) -> Seq<char>
    decreases s.len(),
{
    if s.len() == 0 {
        s
    } else if s[0] == c {
        Seq::empty()
    } else {
        seq![s[0]] + before_char(s.drop_first(), c)
    }
}

/// The index of the first character of `v` at or after `from` that is not
/// `c`.
fn skip_char(v: &Vec<char>, from: usize, c: char) -> (i: usize)
    requires
        from <= v@.len(),
    ensures
        from <= i <= v@.len(),
        strip_leading(v@.skip(from as int), c) == v@.skip(i as int),
{
    let mut i = from;
    while i < v.len() && v[i] == c
        invariant
            from <= i <= v@.len(),
            strip_leading(v@.skip(from as int), c) == strip_leading(v@.skip(i as int), c),
        decreases v.len() - i,
    {
        assert(v@.skip(i as int).drop_first() =~= v@.skip(i + 1));
        i = i + 1;
    }
    i
}

/// The index of the first `c` of `v` at or after `from`, or `v.len()`.
fn find_char(v: &Vec<char>, from: usize, c: char) -> (i: usize)
    requires
        from <= v@.len(),
    ensures
        from <= i <= v@.len(),
        before_char(v@.skip(from as int), c) == v@.subrange(from as int, i as int),
{
    let mut i = from;
    while i < v.len() && v[i] != c
        invariant
            from <= i <= v@.len(),
            before_char(v@.skip(from as int), c) == v@.subrange(from as int, i as int)
                + before_char(v@.skip(i as int), c),
        decreases v.len() - i,
    {
        assert(v@.skip(i as int).drop_first() =~= v@.skip(i + 1));
        assert(v@.subrange(from as int, i as int) + seq![v@[i as int]] =~= v@.subrange(
            from as int,
            i + 1,
        ));
        i = i + 1;
    }
    if i < v.len() {
        assert(before_char(v@.skip(i as int), c) =~= Seq::<char>::empty());
    } else {
        assert(v@.skip(i as int) =~= Seq::<char>::empty());
    }
    assert(v@.subrange(from as int, i as int) + Seq::<char>::empty() =~= v@.subrange(
        from as int,
        i as int,
    ));
    i
}

/// The bot's name derived from its Matrix user ID: `@botname:server` gives
/// `botname`.
pub fn bot_name_from_username(username: &str) -> (r: String)
    ensures
        r@ == before_char(strip_leading(username@, '@'), ':'),
{
    let v = chars_of(username);
    let start = skip_char(&v, 0, '@');
    let end = find_char(&v, start, ':');
    assert(v@.skip(0) =~= v@);
    string_of(&v, start, end)
}

/// The parts of `s` between commas (`s.split(',')`).
pub open spec fn comma_parts(s: Seq<char>) -> Seq<Seq<char>>
    decreases s.len(),
{
    if s.len() == 0 {
        seq![Seq::empty()]
    } else {
        let p = comma_parts(s.drop_last());
        if s.last() == ',' {
            p.push(Seq::empty())
        } else {
            p.update(p.len() - 1, p.last().push(s.last()))
        }
    }
}

proof fn lemma_comma_parts_nonempty(s: Seq<char>)
    ensures
        comma_parts(s).len() >= 1,
    decreases s.len(),
{
    if s.len() > 0 {
        lemma_comma_parts_nonempty(s.drop_last());
    }
}

/// The trimmed parts that are not empty.
pub open spec fn kept_trimmed(parts: Seq<Seq<char>>) -> Seq<Seq<char>>
    decreases parts.len(),
{
    if parts.len() == 0 {
        Seq::empty()
    } else {
        let rest = kept_trimmed(parts.drop_last());
        if trim(parts.last()).len() > 0 {
            rest.push(trim(parts.last()))
        } else {
            rest
        }
    }
}

/// The admin IDs in the comma-separated configuration value `s`, trimmed,
/// empty entries left out.
pub open spec fn admin_list(s: Seq<char>) -> Seq<Seq<char>> {
    kept_trimmed(comma_parts(s))
}

/// The admins named in the comma-separated list `s`.
pub fn parse_admin_list(s: &str) -> (r: Vec<String>)
    ensures
        crate::text::views(r@) == admin_list(s@),
{
    let v = chars_of(s);
    let mut admins: Vec<String> = Vec::new();
    let mut current = String::new();
    let mut i: usize = 0;
    proof {
        assert(v@.take(0) =~= Seq::<char>::empty());
        assert(crate::text::views(admins@) =~= Seq::<Seq<char>>::empty());
        assert(comma_parts(Seq::<char>::empty()).drop_last() =~= Seq::<Seq<char>>::empty());
    }
    while i < v.len()
        invariant
            v@ == s@,
            i <= v@.len(),
            comma_parts(v@.take(i as int)).len() >= 1,
            comma_parts(v@.take(i as int)).last() == current@,
            crate::text::views(admins@) == kept_trimmed(comma_parts(v@.take(i as int)).drop_last()),
        decreases v.len() - i,
    {
        let ghost prev = comma_parts(v@.take(i as int));
        proof {
            let t = v@.take(i + 1);
            assert(t.drop_last() =~= v@.take(i as int));
            assert(t.last() == v@[i as int]);
        }
        if v[i] == ',' {
            let piece = trim_str(current.as_str());
            proof {
                let np = prev.push(Seq::<char>::empty());
                assert(np.drop_last() =~= prev);
                assert(prev.drop_last().push(prev.last()) =~= prev);
            }
            if !piece.as_str().is_empty() {
                let ghost before = admins@;
                admins.push(piece);
                assert(crate::text::views(admins@) =~= crate::text::views(before).push(trim(prev.last())));
            }
            current = String::new();
        } else {
            push_char(&mut current, v[i]);
            proof {
                let np = prev.update(prev.len() - 1, prev.last().push(v@[i as int]));
                assert(np.drop_last() =~= prev.drop_last());
            }
        }
        i = i + 1;
    }
    assert(v@.take(v@.len() as int) =~= v@);
    let piece = trim_str(current.as_str());
    let ghost parts = comma_parts(v@);
    proof {
        assert(parts.drop_last().push(parts.last()) =~= parts);
    }
    if !piece.as_str().is_empty() {
        let ghost before = admins@;
        admins.push(piece);
        assert(crate::text::views(admins@) =~= crate::text::views(before).push(trim(parts.last())));
    }
    admins
}

// ---------------------------------------------------------------------------
// Incoming messages
// ---------------------------------------------------------------------------

/// U+202E RIGHT-TO-LEFT OVERRIDE: mirrored onto the reply when a message
/// starts with it.
pub open spec fn rlo() -> char {
    '\u{202e}'
}

pub open spec fn starts_with(s: Seq<char>, p: Seq<char>) -> bool {
    p.len() <= s.len() && s.take(p.len() as int) == p
}

/// `body` is exactly `cmd`, or `cmd` followed by a space and more.
pub open spec fn is_cmd(body: Seq<char>, cmd: Seq<char>) -> bool {
    body == cmd || starts_with(body, cmd + " "@)
}

/// The commands the bot answers.
#[derive(PartialEq, Eq, Structural, Clone, Copy, Debug)]
pub enum CommandKind {
    Mensa,
    Help,
    Alerts,
    Allow,
    Disallow,
}

/// The command that `match_body` (lower case) names, if any.
pub open spec fn command_kind(m: Seq<char>) -> Option<CommandKind> {
    if !(is_cmd(m, "mensa"@) || is_cmd(m, "help"@) || is_cmd(m, "alerts"@) || is_cmd(m, "allow"@)
        || is_cmd(m, "disallow"@)) {
        None
    } else if starts_with(m, "mensa"@) {
        Some(CommandKind::Mensa)
    } else if starts_with(m, "help"@) {
        Some(CommandKind::Help)
    } else if starts_with(m, "alerts"@) {
        Some(CommandKind::Alerts)
    } else if starts_with(m, "allow"@) {
        Some(CommandKind::Allow)
    } else {
        Some(CommandKind::Disallow)
    }
}

/// Each command name, alone or followed by a space and anything, is that
/// command; every other text is no command.
pub proof fn law_command_names(rest: Seq<char>, m: Seq<char>)
    ensures
        command_kind("mensa"@) == Some(CommandKind::Mensa),
        command_kind("help"@) == Some(CommandKind::Help),
        command_kind("alerts"@) == Some(CommandKind::Alerts),
        command_kind("allow"@) == Some(CommandKind::Allow),
        command_kind("disallow"@) == Some(CommandKind::Disallow),
        command_kind("mensa "@ + rest) == Some(CommandKind::Mensa),
        command_kind("help "@ + rest) == Some(CommandKind::Help),
        command_kind("alerts "@ + rest) == Some(CommandKind::Alerts),
        command_kind("allow "@ + rest) == Some(CommandKind::Allow),
        command_kind("disallow "@ + rest) == Some(CommandKind::Disallow),
        command_kind(m) is Some ==> (m == "mensa"@ || m == "help"@ || m == "alerts"@ || m
            == "allow"@ || m == "disallow"@ || m.take(6) == "mensa "@ || m.take(5) == "help "@
            || m.take(7) == "alerts "@ || m.take(6) == "allow "@ || m.take(9) == "disallow "@),
{
    reveal_strlit("mensa");
    reveal_strlit("help");
    reveal_strlit("alerts");
    reveal_strlit("allow");
    reveal_strlit("disallow");
    reveal_strlit(" ");
    reveal_strlit("mensa ");
    reveal_strlit("help ");
    reveal_strlit("alerts ");
    reveal_strlit("allow ");
    reveal_strlit("disallow ");
    lemma_command_name("mensa"@, rest);
    lemma_command_name("help"@, rest);
    lemma_command_name("alerts"@, rest);
    lemma_command_name("allow"@, rest);
    lemma_command_name("disallow"@, rest);
    let names = seq!["mensa"@, "help"@, "alerts"@, "allow"@, "disallow"@];
    assert forall|a: int, b: int| 0 <= b < a < 5 implies !starts_with(#[trigger] names[a], #[trigger] names[b])
        && !starts_with(names[a] + " "@ + rest, names[b]) by {
        let i: int = if a == 3 && b == 2 { 2 } else { 0 };
        lemma_not_prefix(names[a], names[b], i);
        lemma_not_prefix(names[a] + " "@ + rest, names[b], i);
    }
    assert(!starts_with(names[2], names[0]) && !starts_with(names[2], names[1]));
    assert(!starts_with(names[3], names[0]) && !starts_with(names[3], names[1]) && !starts_with(names[3], names[2]));
    assert(!starts_with(names[4], names[0]) && !starts_with(names[4], names[1]) && !starts_with(names[4], names[2]) && !starts_with(names[4], names[3]));
    assert(!starts_with(names[1], names[0]));
    assert("mensa"@ + " "@ =~= "mensa "@);
    assert("help"@ + " "@ =~= "help "@);
    assert("alerts"@ + " "@ =~= "alerts "@);
    assert("allow"@ + " "@ =~= "allow "@);
    assert("disallow"@ + " "@ =~= "disallow "@);
}

proof fn lemma_not_prefix(s: Seq<char>, p: Seq<char>, i: int)
    requires
        0 <= i < p.len(),
        i < s.len(),
        s[i] != p[i],
    ensures
        !starts_with(s, p),
{
    if p.len() <= s.len() {
        assert(s.take(p.len() as int)[i] != p[i]);
    }
}

proof fn lemma_command_name(name: Seq<char>, rest: Seq<char>)
    ensures
        starts_with(name, name),
        starts_with(name + " "@ + rest, name),
        starts_with(name + " "@ + rest, name + " "@),
{
    assert(name.take(name.len() as int) =~= name);
    assert((name + " "@ + rest).take(name.len() as int) =~= name);
    assert((name + " "@ + rest).take((name + " "@).len() as int) =~= name + " "@);
}

/// The message after the leading override marks and white space are
/// removed, in its original case.
pub open spec fn message_body(text: Seq<char>) -> Seq<char> {
    trim(strip_leading(trim(text), rlo()))
}

/// Whether the trimmed message starts with the override mark.
pub open spec fn starts_with_rlo(text: Seq<char>) -> bool {
    trim(text).len() > 0 && trim(text)[0] == rlo()
}

/// The lower-case text that decides the command, and the original-case text
/// handed to the command: in a direct chat the whole message; in a group
/// room only a message that starts with `<bot name> `, without that prefix.
/// The prefix is cut from both texts by its length in characters. Where
/// lower-casing changes the length of the message's start (a Kelvin sign,
/// U+212A, in it, say), cutting by the prefix's length in UTF-8 bytes, as a
/// plain slice would, could fall inside a character and panic, or cut at a
/// different place; here the cut stays at the same character count.
pub open spec fn addressed(text: Seq<char>, bot: Seq<char>, direct: bool) -> Option<(Seq<char>, Seq<char>)> {
    let original = message_body(text);
    let lower = lowercase(original);
    if direct {
        Some((lower, original))
    } else {
        let prefix = bot + " "@;
        if starts_with(lower, prefix) {
            Some(
                (
                    lower.skip(prefix.len() as int),
                    if prefix.len() <= original.len() {
                        original.skip(prefix.len() as int)
                    } else {
                        Seq::empty()
                    },
                ),
            )
        } else {
            None
        }
    }
}

/// A message that the bot answers: whether to mirror the override mark, the
/// command, and the text handed to the command.
pub struct Incoming {
    pub rlo: bool,
    pub kind: CommandKind,
    pub body: String,
}

/// The command in `text`, for a bot named `bot` (lower case), or `None` when
/// the message is not for the bot.
pub open spec fn incoming_spec(text: Seq<char>, bot: Seq<char>, direct: bool) -> Option<(bool, CommandKind, Seq<char>)> {
    match addressed(text, bot, direct) {
        None => None,
        Some(p) => match command_kind(p.0) {
            None => None,
            Some(k) => Some((starts_with_rlo(text), k, p.1)),
        },
    }
}

/// In a group room a message is for the bot only when it starts with the
/// bot's name and a space (ignoring case); every other message is ignored.
pub proof fn law_group_rooms_need_the_bot_name(text: Seq<char>, bot: Seq<char>)
    requires
        !starts_with(lowercase(message_body(text)), bot + " "@),
    ensures
        incoming_spec(text, bot, false) is None,
{
}

fn starts_with_exec(s: &Vec<char>, p: &str) -> (r: bool)
    ensures
        r == starts_with(s@, p@),
{
    let pv = chars_of(p);
    if pv.len() > s.len() {
        return false;
    }
    let mut k: usize = 0;
    while k < pv.len()
        invariant
            pv@ == p@,
            pv@.len() <= s@.len(),
            k <= pv@.len(),
            forall|j: int| 0 <= j < k ==> s@[j] == pv@[j],
        decreases pv.len() - k,
    {
        if s[k] != pv[k] {
            assert(s@.take(pv@.len() as int)[k as int] != pv@[k as int]);
            return false;
        }
        k = k + 1;
    }
    assert(s@.take(pv@.len() as int) =~= pv@);
    true
}

fn is_cmd_exec(s: &Vec<char>, cmd: &str) -> (r: bool)
    ensures
        r == is_cmd(s@, cmd@),
{
    let whole = string_of(s, 0, s.len());
    assert(s@.subrange(0, s@.len() as int) =~= s@);
    if whole == owned(cmd) {
        return true;
    }
    let with_space = cat(cmd, " ");
    starts_with_exec(s, with_space.as_str())
}

fn command_kind_exec(m: &Vec<char>) -> (r: Option<CommandKind>)
    ensures
        r == command_kind(m@),
{
    if !(is_cmd_exec(m, "mensa") || is_cmd_exec(m, "help") || is_cmd_exec(m, "alerts")
        || is_cmd_exec(m, "allow") || is_cmd_exec(m, "disallow")) {
        None
    } else if starts_with_exec(m, "mensa") {
        Some(CommandKind::Mensa)
    } else if starts_with_exec(m, "help") {
        Some(CommandKind::Help)
    } else if starts_with_exec(m, "alerts") {
        Some(CommandKind::Alerts)
    } else if starts_with_exec(m, "allow") {
        Some(CommandKind::Allow)
    } else {
        Some(CommandKind::Disallow)
    }
}

/// Reads an incoming text message for the bot named `bot_name` (lower
/// case): in a direct chat every command is read; in a group room only a
/// message starting with `<bot name> `, which is cut off by its length in
/// characters (see `addressed`). `None` when the message is not a command
/// for the bot.
pub fn parse_incoming(text: &str, bot_name: &str, is_direct: bool) -> (r: Option<Incoming>)
    ensures
        match r {
            Some(inc) => incoming_spec(text@, bot_name@, is_direct) == Some((inc.rlo, inc.kind, inc.body@)),
            None => incoming_spec(text@, bot_name@, is_direct) is None,
        },
{
    let raw = trim_str(text);
    let rv = chars_of(raw.as_str());
    let has_rlo = rv.len() > 0 && rv[0] == '\u{202e}';
    let start = skip_char(&rv, 0, '\u{202e}');
    assert(rv@.skip(0) =~= rv@);
    let stripped = string_of(&rv, start, rv.len());
    assert(stripped@ =~= rv@.skip(start as int));
    let original = trim_str(stripped.as_str());
    let lower = to_lowercase(original.as_str());
    let lv = chars_of(lower.as_str());
    let ov = chars_of(original.as_str());
    let (match_v, handle) = if is_direct {
        (lv, original)
    } else {
        let prefix = cat(bot_name, " ");
        if !starts_with_exec(&lv, prefix.as_str()) {
            return None;
        }
        let n = chars_of(prefix.as_str()).len();
        let mv = chars_of(string_of(&lv, n, lv.len()).as_str());
        let h = if n <= ov.len() {
            string_of(&ov, n, ov.len())
        } else {
            String::new()
        };
        (mv, h)
    };
    match command_kind_exec(&match_v) {
        None => None,
        Some(kind) => Some(Incoming { rlo: has_rlo, kind, body: handle }),
    }
}

// ---------------------------------------------------------------------------
// Who may run what
// ---------------------------------------------------------------------------

/// What to do with a command.
pub enum Action {
    /// Refuse: the sender may not use the command.
    Deny(String),
    Mensa(String),
    /// `help`, with the restricted commands listed or not.
    Help(String, bool),
    Alerts(String),
    Allow(String),
    Disallow(String),
}

pub open spec fn deny_text() -> Seq<char> {
    "Du bist nicht berechtigt, diesen Befehl zu verwenden."@
}

/// `mensa` and `help` are open to everyone; `help` lists `allow` and
/// `disallow` only to an allowed user in a direct chat. `alerts` is for
/// allowed users; `allow` and `disallow` are for allowed users in a direct
/// chat only, and are refused elsewhere.
pub fn authorize(inc: Incoming, access: &AccessControl, sender: &str, is_direct: bool) -> (a: Action)
    ensures
        inc.kind == CommandKind::Mensa ==> a == Action::Mensa(inc.body),
        inc.kind == CommandKind::Help ==> a == Action::Help(
            inc.body,
            is_direct && access@.permits(sender@),
        ),
        inc.kind == CommandKind::Alerts && !access@.permits(sender@) ==> (a matches Action::Deny(m)
            && m@ == deny_text()),
        inc.kind == CommandKind::Alerts && access@.permits(sender@) ==> a == Action::Alerts(inc.body),
        (inc.kind == CommandKind::Allow || inc.kind == CommandKind::Disallow) && !(is_direct
            && access@.permits(sender@)) ==> (a matches Action::Deny(m) && m@ == deny_text()),
        inc.kind == CommandKind::Allow && is_direct && access@.permits(sender@) ==> a
            == Action::Allow(inc.body),
        inc.kind == CommandKind::Disallow && is_direct && access@.permits(sender@) ==> a
            == Action::Disallow(inc.body),
{
    match inc.kind {
        CommandKind::Mensa => Action::Mensa(inc.body),
        CommandKind::Help => {
            let show_restricted = is_direct && access.is_allowed(sender);
            Action::Help(inc.body, show_restricted)
        },
        _ => {
            let allowed = access.is_allowed(sender);
            match inc.kind {
                CommandKind::Alerts => if allowed {
                    Action::Alerts(inc.body)
                } else {
                    Action::Deny(owned("Du bist nicht berechtigt, diesen Befehl zu verwenden."))
                },
                _ => if !(is_direct && allowed) {
                    Action::Deny(owned("Du bist nicht berechtigt, diesen Befehl zu verwenden."))
                } else if inc.kind == CommandKind::Allow {
                    Action::Allow(inc.body)
                } else {
                    Action::Disallow(inc.body)
                },
            }
        },
    }
}

/// The reply as sent: with the override mark in front when the message
/// started with one.
pub fn final_reply(rlo_mark: bool, response: String) -> (r: String)
    ensures
        rlo_mark ==> r@ == seq![rlo()] + response@,
        !rlo_mark ==> r@ == response@,
{
    if rlo_mark {
        let mut r = String::new();
        push_char(&mut r, '\u{202e}');
        r.append(response.as_str());
        r
    } else {
        response
    }
}

} // verus!
