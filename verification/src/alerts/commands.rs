//! The `alerts` command: argument tokenizing and the conversation with the
//! alert store that each subcommand runs.
use vstd::prelude::*;
use crate::alerts::{alert_views, Alert, AlertView};
use crate::text::{
    cat, cat3, char_index_from, chars_of, decimal, decimal_string, find, is_white_space,
    is_white_space_char, join, lemma_first_char, lowercase, owned, push_char, replace_all,
    string_of, to_lowercase, trim, trim_bounds, views,
};

verus! {

// ---------------------------------------------------------------------------
// Shell-like tokenizer
// ---------------------------------------------------------------------------

/// The tokenizer's state after some prefix of the input.
pub struct SplitState {
    pub tokens: Seq<Seq<char>>,
    pub current: Seq<char>,
    pub quote: Option<char>,
}

/// A character that separates tokens: Unicode white space, as
/// `char::is_whitespace` decides it.
pub open spec fn is_blank(c: char) -> bool {
    is_white_space(c)
}

pub open spec fn is_quote(c: char) -> bool {
    c == '"' || c == '\''
}

/// One character of input: inside quotes everything but the closing quote is
/// kept; outside, a quote opens a quoted part and a blank ends the token.
pub open spec fn split_step(st: SplitState, c: char) -> SplitState {
    match st.quote {
        Some(q) => if c == q {
            SplitState { quote: None, ..st }
        } else {
            SplitState { current: st.current.push(c), ..st }
        },
        None => if is_quote(c) {
            SplitState { quote: Some(c), ..st }
        } else if is_blank(c) {
            if st.current.len() > 0 {
                SplitState { tokens: st.tokens.push(st.current), current: Seq::empty(), ..st }
            } else {
                st
            }
        } else {
            SplitState { current: st.current.push(c), ..st }
        },
    }
}

/// The state after reading all of `s`.
pub open spec fn split_run(s: Seq<char>) -> SplitState
    decreases s.len(),
{
    if s.len() == 0 {
        SplitState { tokens: Seq::empty(), current: Seq::empty(), quote: None }
    } else {
        split_step(split_run(s.drop_last()), s.last())
    }
}

/// The tokens of `s`: the finished tokens, and the last one if it is not empty.
pub open spec fn shell_words(s: Seq<char>) -> Seq<Seq<char>> {
    let st = split_run(s);
    if st.current.len() > 0 {
        st.tokens.push(st.current)
    } else {
        st.tokens
    }
}

/// The tokens laid end to end.
pub open spec fn concat_all(parts: Seq<Seq<char>>) -> Seq<char>
    decreases parts.len(),
{
    if parts.len() == 0 {
        Seq::empty()
    } else {
        concat_all(parts.drop_last()) + parts.last()
    }
}

/// `s` with its blanks left out.
pub open spec fn without_blanks(s: Seq<char>) -> Seq<char>
    decreases s.len(),
{
    if s.len() == 0 {
        s
    } else if is_blank(s.last()) {
        without_blanks(s.drop_last())
    } else {
        without_blanks(s.drop_last()).push(s.last())
    }
}

pub open spec fn has_no_quote(s: Seq<char>) -> bool {
    forall|i: int| 0 <= i < s.len() ==> !is_quote(#[trigger] s[i])
}

pub open spec fn has_no_blank(s: Seq<char>) -> bool {
    forall|i: int| 0 <= i < s.len() ==> !is_blank(#[trigger] s[i])
}

proof fn lemma_split_run_tokens_nonempty(s: Seq<char>)
    ensures
        forall|k: int|
            0 <= k < split_run(s).tokens.len() ==> (#[trigger] split_run(s).tokens[k]).len() > 0,
    decreases s.len(),
{
    if s.len() > 0 {
        lemma_split_run_tokens_nonempty(s.drop_last());
    }
}

proof fn lemma_split_run_plain(s: Seq<char>)
    requires
        has_no_quote(s),
    ensures
        split_run(s).quote is None,
        forall|k: int|
            0 <= k < split_run(s).tokens.len() ==> has_no_blank(
                #[trigger] split_run(s).tokens[k],
            ),
        has_no_blank(split_run(s).current),
        concat_all(split_run(s).tokens) + split_run(s).current == without_blanks(s),
    decreases s.len(),
{
    if s.len() > 0 {
        let p = s.drop_last();
        assert(has_no_quote(p)) by {
            assert forall|i: int| 0 <= i < p.len() implies !is_quote(#[trigger] p[i]) by {
                assert(p[i] == s[i]);
            }
        }
        lemma_split_run_plain(p);
        let st = split_run(p);
        let c = s.last();
        assert(!is_quote(c)) by {
            assert(c == s[s.len() - 1]);
        }
        if is_blank(c) {
            if st.current.len() > 0 {
                let t = st.tokens.push(st.current);
                assert(t.drop_last() =~= st.tokens);
                assert(concat_all(t) + Seq::<char>::empty() =~= concat_all(st.tokens) + st.current);
            }
        } else {
            let cur = st.current.push(c);
            assert(has_no_blank(cur)) by {
                assert forall|i: int| 0 <= i < cur.len() implies !is_blank(#[trigger] cur[i]) by {
                    if i < st.current.len() {
                        assert(cur[i] == st.current[i]);
                    }
                }
            }
            assert(concat_all(st.tokens) + cur =~= (concat_all(st.tokens) + st.current).push(c));
        }
    }
}

/// No token that `shell_split` returns is empty.
pub proof fn law_shell_words_nonempty(s: Seq<char>)
    ensures
        forall|k: int| 0 <= k < shell_words(s).len() ==> (#[trigger] shell_words(s)[k]).len() > 0,
{
    lemma_split_run_tokens_nonempty(s);
    let st = split_run(s);
    if st.current.len() > 0 {
        assert forall|k: int| 0 <= k < shell_words(s).len() implies (
        #[trigger] shell_words(s)[k]).len() > 0 by {
            if k < st.tokens.len() {
                assert(shell_words(s)[k] == st.tokens[k]);
            }
        }
    }
}

/// On input without quote characters, `shell_split` splits at blanks only:
/// no token holds a blank, and the tokens laid end to end are the input with
/// its blanks left out.
pub proof fn law_shell_words_plain(s: Seq<char>)
    requires
        has_no_quote(s),
    ensures
        forall|k: int| 0 <= k < shell_words(s).len() ==> has_no_blank(#[trigger] shell_words(s)[k]),
        concat_all(shell_words(s)) == without_blanks(s),
{
    lemma_split_run_plain(s);
    let st = split_run(s);
    if st.current.len() > 0 {
        let w = st.tokens.push(st.current);
        assert(w.drop_last() =~= st.tokens);
        assert forall|k: int| 0 <= k < w.len() implies has_no_blank(#[trigger] w[k]) by {
            if k < st.tokens.len() {
                assert(w[k] == st.tokens[k]);
            }
        }
    } else {
        assert(st.current =~= Seq::<char>::empty());
        assert(concat_all(st.tokens) + st.current =~= concat_all(st.tokens));
    }
}

proof fn lemma_inside_quote(q: char, w: Seq<char>, k: int)
    requires
        is_quote(q),
        0 <= k <= w.len(),
        forall|i: int| 0 <= i < w.len() ==> w[i] != q,
    ensures
        split_run(seq![q] + w.take(k)) == (SplitState {
            tokens: Seq::empty(),
            current: w.take(k),
            quote: Some(q),
        }),
    decreases k,
{
    let s = seq![q] + w.take(k);
    if k == 0 {
        assert(s =~= seq![q]);
        assert(s.drop_last() =~= Seq::<char>::empty());
        assert(w.take(0) =~= Seq::<char>::empty());
        assert(s.last() == q);
        let e = split_run(Seq::<char>::empty());
        assert(e.quote is None && e.current.len() == 0 && e.tokens.len() == 0);
        let st = split_run(s);
        assert(st.tokens =~= Seq::<Seq<char>>::empty());
        assert(st.current =~= w.take(k));
        assert(st.quote == Some(q));
    } else {
        lemma_inside_quote(q, w, k - 1);
        assert(s.drop_last() =~= seq![q] + w.take(k - 1));
        assert(s.last() == w[k - 1]);
        assert(w.take(k - 1).push(w[k - 1]) =~= w.take(k));
        let st = split_run(s);
        assert(st.tokens =~= Seq::<Seq<char>>::empty());
        assert(st.current =~= w.take(k));
        assert(st.quote == Some(q));
    }
}

/// A part in single or double quotes that holds no such quote is one token,
/// spaces and tabs included.
pub proof fn law_quoted_part_is_one_token(q: char, w: Seq<char>)
    requires
        is_quote(q),
        w.len() > 0,
        forall|i: int| 0 <= i < w.len() ==> w[i] != q,
    ensures
        shell_words(seq![q] + w + seq![q]) == seq![w],
{
    lemma_inside_quote(q, w, w.len() as int);
    let s = seq![q] + w + seq![q];
    assert(w.take(w.len() as int) =~= w);
    assert(s.drop_last() =~= seq![q] + w.take(w.len() as int));
    assert(s.last() == q);
    assert(Seq::<Seq<char>>::empty().push(w) =~= seq![w]);
}

/// Splits `s` on white space, keeping single- or double-quoted parts
/// together and dropping the quotes.
pub fn shell_split(s: &str) -> (tokens: Vec<String>)
    ensures
        views(tokens@) == shell_words(s@),
{
    let v = chars_of(s);
    let mut tokens: Vec<String> = Vec::new();
    let mut current = String::new();
    let mut in_quote: Option<char> = None;
    let mut i: usize = 0;
    assert(v@.take(0) =~= Seq::<char>::empty());
    assert(views(tokens@) =~= Seq::<Seq<char>>::empty());
    while i < v.len()
        invariant
            v@ == s@,
            i <= v@.len(),
            split_run(v@.take(i as int)) == (SplitState {
                tokens: views(tokens@),
                current: current@,
                quote: in_quote,
            }),
        decreases v.len() - i,
    {
        let ch = v[i];
        proof {
            assert(v@.take(i + 1).drop_last() =~= v@.take(i as int));
        }
        match in_quote {
            Some(q) => {
                if ch == q {
                    in_quote = None;
                } else {
                    push_char(&mut current, ch);
                    assert(current@ =~= split_run(v@.take(i as int)).current.push(ch));
                }
            },
            None => {
                if ch == '"' || ch == '\'' {
                    in_quote = Some(ch);
                } else if is_white_space_char(ch) {
                    if !current.as_str().is_empty() {
                        let ghost old_tokens = tokens@;
                        tokens.push(current);
                        current = String::new();
                        assert(views(tokens@) =~= views(old_tokens).push(
                            split_run(v@.take(i as int)).current,
                        ));
                    }
                } else {
                    push_char(&mut current, ch);
                    assert(current@ =~= split_run(v@.take(i as int)).current.push(ch));
                }
            },
        }
        i = i + 1;
    }
    assert(v@.take(v@.len() as int) =~= v@);
    if !current.as_str().is_empty() {
        let ghost old_tokens = tokens@;
        tokens.push(current);
        assert(views(tokens@) =~= views(old_tokens).push(split_run(s@).current));
    }
    tokens
}

// ---------------------------------------------------------------------------
// The subcommand
// ---------------------------------------------------------------------------

/// `body.splitn(3, ' ')`: the second and the third part, where present.
pub open spec fn split3(body: Seq<char>) -> (Option<Seq<char>>, Option<Seq<char>>) {
    match find(body, seq![' ']) {
        None => (None, None),
        Some(i) => {
            let tail = body.skip(i + 1);
            match find(tail, seq![' ']) {
                None => (Some(tail), None),
                Some(j) => (Some(tail.take(j)), Some(tail.skip(j + 1))),
            }
        },
    }
}

/// The subcommand of `alerts ...`: the second word, trimmed and lower-cased;
/// `list` when there is none.
pub open spec fn subcommand(body: Seq<char>) -> Seq<char> {
    lowercase(
        trim(
            match split3(body).0 {
                Some(s) => s,
                None => "list"@,
            },
        ),
    )
}

/// The arguments of the subcommand: the rest of `body`, trimmed, in its
/// original case.
pub open spec fn sub_args(body: Seq<char>) -> Seq<char> {
    trim(
        match split3(body).1 {
            Some(s) => s,
            None => Seq::empty(),
        },
    )
}

fn trimmed(v: &Vec<char>, lo: usize, hi: usize) -> (r: String)
    requires
        lo <= hi <= v@.len(),
    ensures
        r@ == trim(v@.subrange(lo as int, hi as int)),
{
    let part = string_of(v, lo, hi);
    let pv = chars_of(part.as_str());
    let (a, b) = trim_bounds(&pv);
    string_of(&pv, a, b)
}

/// The subcommand (lower-cased) and its arguments in `body`.
pub fn parse_alerts_body(body: &str) -> (r: (String, String))
    ensures
        r.0@ == subcommand(body@),
        r.1@ == sub_args(body@),
{
    let v = chars_of(body);
    let i = char_index_from(&v, 0, ' ');
    proof {
        lemma_first_char(v@, ' ', i as int);
    }
    if i == v.len() {
        let l = to_lowercase("list");
        proof {
            reveal_strlit("list");
            assert(trim("list"@) == "list"@) by {
                assert(!crate::text::is_white_space("list"@[0]));
                assert(!crate::text::is_white_space("list"@.last()));
            }
        }
        let e = owned("");
        proof {
            reveal_strlit("");
            assert(e@ =~= Seq::<char>::empty());
            assert(trim(Seq::<char>::empty()) =~= Seq::<char>::empty());
        }
        return (l, e);
    }
    let j = char_index_from(&v, i + 1, ' ');
    let ghost tail = v@.skip(i + 1);
    proof {
        assert forall|k: int| 0 <= k < j - (i + 1) implies tail[k] != ' ' by {
            assert(tail[k] == v@[k + i + 1]);
        }
        if j < v@.len() {
            assert(tail[j - (i + 1)] == v@[j as int]);
        }
        lemma_first_char(tail, ' ', j - (i + 1));
    }
    if j == v.len() {
        let sub = trimmed(&v, i + 1, v.len());
        assert(v@.subrange(i + 1, v@.len() as int) =~= tail);
        let l = to_lowercase(sub.as_str());
        let e = owned("");
        proof {
            reveal_strlit("");
            assert(e@ =~= Seq::<char>::empty());
            assert(trim(Seq::<char>::empty()) =~= Seq::<char>::empty());
        }
        return (l, e);
    }
    let sub = trimmed(&v, i + 1, j);
    assert(v@.subrange(i + 1, j as int) =~= tail.take(j - (i + 1)));
    let l = to_lowercase(sub.as_str());
    let rest = trimmed(&v, j + 1, v.len());
    assert(v@.subrange(j + 1, v@.len() as int) =~= tail.skip(j - (i + 1) + 1));
    (l, rest)
}

// ---------------------------------------------------------------------------
// Replies that need no further store access
// ---------------------------------------------------------------------------

pub open spec fn spaces(n: nat) -> Seq<char> {
    Seq::new(n, |i: int| ' ')
}

/// `s` padded with spaces to `w` characters (`{:<w}`).
pub open spec fn pad(s: Seq<char>, w: nat) -> Seq<char> {
    if s.len() < w {
        s + spaces((w - s.len()) as nat)
    } else {
        s
    }
}

/// `s` padded with spaces to `w` characters.
pub fn pad_right(s: &str, w: usize) -> (r: String)
    ensures
        r@ == pad(s@, w as nat),
{
    let n = chars_of(s).len();
    let mut r = owned(s);
    let mut k = n;
    while k < w
        invariant
            n == s@.len(),
            n <= k <= w || (k == n && n >= w),
            r@ == s@ + spaces((k - n) as nat),
        decreases w - k,
    {
        r.append(" ");
        proof {
            reveal_strlit(" ");
            assert(s@ + spaces((k + 1 - n) as nat) =~= s@ + spaces((k - n) as nat) + " "@);
        }
        k = k + 1;
    }
    proof {
        if n >= w {
            assert(spaces(0) =~= Seq::<char>::empty());
            assert(r@ =~= s@);
        }
    }
    r
}

/// One line of the alert list.
pub open spec fn list_row(a: AlertView, sender: Seq<char>, room: Seq<char>, all: bool) -> Seq<char> {
    let here = if a.room_id == room {
        " [hier]"@
    } else {
        ""@
    };
    let status = if a.enabled {
        "✅"@
    } else {
        "⏸"@
    };
    if all {
        let you = if a.creator == sender {
            " [du]"@
        } else {
            ""@
        };
        "  "@ + status + " "@ + pad(a.name, 20) + " "@ + pad(a.room_id, 30) + " "@ + a.creator + you
            + here
    } else {
        "  "@ + status + " "@ + pad(a.name, 20) + " "@ + a.room_id + here
    }
}

/// The reply to `alerts list` / `alerts list-all` for what loading the
/// alerts gave.
pub open spec fn list_reply_spec(
    loaded: Result<Seq<AlertView>, Seq<char>>,
    sender: Seq<char>,
    room: Seq<char>,
    all: bool,
) -> Seq<char> {
    match loaded {
        Err(e) => "Fehler beim Laden der Alerts: "@ + e,
        Ok(alerts) => if alerts.len() == 0 {
            if all {
                "Keine Alerts vorhanden."@
            } else {
                "Du hast keine Alerts."@
            }
        } else {
            (if all {
                "Alle Alerts ("@
            } else {
                "Deine Alerts ("@
            }) + decimal(alerts.len()) + "):\n"@ + "\n"@ + join(
                alerts.map_values(|a: AlertView| list_row(a, sender, room, all)),
                "\n"@,
            ) + "\n"@ + "\n[hier] = dieser Raum  [du] = du"@
        },
    }
}

fn list_row_exec(a: &Alert, sender: &str, room: &str, all: bool) -> (r: String)
    ensures
        r@ == list_row(a@, sender@, room@, all),
{
    let here = if a.room_id == owned(room) {
        " [hier]"
    } else {
        ""
    };
    let status = if a.enabled {
        "✅"
    } else {
        "⏸"
    };
    let mut r = cat3("  ", status, " ");
    r.append(pad_right(a.name.as_str(), 20).as_str());
    r.append(" ");
    if all {
        let you = if a.creator == owned(sender) {
            " [du]"
        } else {
            ""
        };
        r.append(pad_right(a.room_id.as_str(), 30).as_str());
        r.append(" ");
        r.append(a.creator.as_str());
        r.append(you);
    } else {
        r.append(a.room_id.as_str());
    }
    r.append(here);
    r
}

pub open spec fn alerts_result_view(r: Result<Vec<Alert>, String>) -> Result<Seq<AlertView>, Seq<char>> {
    match r {
        Ok(v) => Ok(alert_views(v@)),
        Err(e) => Err(e@),
    }
}

/// The reply to `alerts list` (`all` false: the sender's alerts) or
/// `alerts list-all`, from what loading the alerts gave.
pub fn list_reply(loaded: Result<Vec<Alert>, String>, sender: &str, room: &str, all: bool) -> (r: String)
    ensures
        r@ == list_reply_spec(alerts_result_view(loaded), sender@, room@, all),
{
    let alerts = match loaded {
        Err(e) => return cat("Fehler beim Laden der Alerts: ", e.as_str()),
        Ok(a) => a,
    };
    if alerts.len() == 0 {
        return if all {
            owned("Keine Alerts vorhanden.")
        } else {
            owned("Du hast keine Alerts.")
        };
    }
    let mut rows: Vec<String> = Vec::new();
    let mut i: usize = 0;
    while i < alerts.len()
        invariant
            i <= alerts@.len(),
            views(rows@) == alert_views(alerts@).take(i as int).map_values(
                |a: AlertView| list_row(a, sender@, room@, all),
            ),
        decreases alerts.len() - i,
    {
        let row = list_row_exec(&alerts[i], sender, room, all);
        let ghost before = rows@;
        rows.push(row);
        assert(views(rows@) =~= alert_views(alerts@).take(i + 1).map_values(
            |a: AlertView| list_row(a, sender@, room@, all),
        )) by {
            assert(views(rows@) =~= views(before).push(row@));
        }
        i = i + 1;
    }
    assert(alert_views(alerts@).take(alerts@.len() as int) =~= alert_views(alerts@));
    let mut r = owned(
        if all {
            "Alle Alerts ("
        } else {
            "Deine Alerts ("
        },
    );
    r.append(decimal_string(alerts.len()).as_str());
    r.append("):\n");
    r.append("\n");
    r.append(crate::text::join_strings(&rows, "\n").as_str());
    r.append("\n");
    r.append("\n[hier] = dieser Raum  [du] = du");
    r
}

/// How chrono renders the UNIX time `ts` as "%Y-%m-%d %H:%M UTC"; `None`
/// when `ts` is not a representable time.
pub uninterp spec fn utc_minute_text(ts: i64) -> Option<Seq<char>>;

/// Converts `ts` with `chrono::DateTime::from_timestamp(ts, 0)` and formats
/// it as "%Y-%m-%d %H:%M UTC". The text is only named.
#[verifier::external_body]
fn format_utc_minute(ts: i64) -> (r: Option<String>)
    ensures
        match r {
            Some(t) => utc_minute_text(ts) == Some(t@),
            None => utc_minute_text(ts) is None,
        },
{
    match chrono::DateTime::from_timestamp(ts, 0) {
        Some(dt) => Some(dt.format("%Y-%m-%d %H:%M UTC").to_string()),
        None => None,
    }
}

/// The details of one alert.
pub open spec fn info_text(a: AlertView) -> Seq<char> {
    let last_checked = match a.last_checked {
        Some(ts) => match utc_minute_text(ts) {
            Some(t) => t,
            None => "nie"@,
        },
        None => "nie"@,
    };
    let last_value = match a.last_value {
        Some(v) => v,
        None => "–"@,
    };
    let status = if a.enabled {
        "aktiv"@
    } else {
        "deaktiviert"@
    };
    "Alert: "@ + a.name + "\nStatus:       "@ + status + "\nURL:          "@ + a.url
        + "\nCSS:          "@ + a.css + "\nProperty:     "@ + a.property + "\nSchedule:     "@
        + a.schedule + "\nRaum:         "@ + a.room_id + "\nErstellt von: "@ + a.creator
        + "\nLetzter Wert: "@ + last_value + "\nLetzte Prüfung: "@ + last_checked
}

/// The reply to `alerts info <name>` for what looking the alert up gave.
pub open spec fn info_reply_spec(name: Seq<char>, found: Result<Option<AlertView>, Seq<char>>) -> Seq<char> {
    match found {
        Err(e) => "Fehler: "@ + e,
        Ok(None) => "Kein Alert mit dem Namen \""@ + name + "\" gefunden."@,
        Ok(Some(a)) => info_text(a),
    }
}

pub open spec fn found_view(r: Result<Option<Alert>, String>) -> Result<Option<AlertView>, Seq<char>> {
    match r {
        Ok(Some(a)) => Ok(Some(a@)),
        Ok(None) => Ok(None),
        Err(e) => Err(e@),
    }
}

/// The reply to `alerts info <name>`.
pub fn info_reply(name: &str, found: Result<Option<Alert>, String>) -> (r: String)
    ensures
        r@ == info_reply_spec(name@, found_view(found)),
{
    match found {
        Err(e) => cat("Fehler: ", e.as_str()),
        Ok(None) => cat3("Kein Alert mit dem Namen \"", name, "\" gefunden."),
        Ok(Some(a)) => {
            let last_checked = match a.last_checked {
                Some(ts) => match format_utc_minute(ts) {
                    Some(t) => t,
                    None => owned("nie"),
                },
                None => owned("nie"),
            };
            let last_value = match &a.last_value {
                Some(v) => v.clone(),
                None => owned("–"),
            };
            let status = if a.enabled {
                "aktiv"
            } else {
                "deaktiviert"
            };
            let mut r = cat("Alert: ", a.name.as_str());
            r.append("\nStatus:       ");
            r.append(status);
            r.append("\nURL:          ");
            r.append(a.url.as_str());
            r.append("\nCSS:          ");
            r.append(a.css.as_str());
            r.append("\nProperty:     ");
            r.append(a.property.as_str());
            r.append("\nSchedule:     ");
            r.append(a.schedule.as_str());
            r.append("\nRaum:         ");
            r.append(a.room_id.as_str());
            r.append("\nErstellt von: ");
            r.append(a.creator.as_str());
            r.append("\nLetzter Wert: ");
            r.append(last_value.as_str());
            r.append("\nLetzte Prüfung: ");
            r.append(last_checked.as_str());
            r
        },
    }
}

/// The reply after deleting the alert `name`.
pub open spec fn remove_reply_spec(name: Seq<char>, deleted: Result<bool, Seq<char>>) -> Seq<char> {
    match deleted {
        Ok(true) => "✅ Alert \""@ + name + "\" gelöscht."@,
        Ok(false) => "Kein Alert \""@ + name + "\" gefunden."@,
        Err(e) => "Fehler: "@ + e,
    }
}

/// The reply after enabling (`enabled`) or disabling the alert `name`.
pub open spec fn toggle_reply_spec(name: Seq<char>, enabled: bool, changed: Result<bool, Seq<char>>) -> Seq<char> {
    match changed {
        Ok(true) => "✅ Alert \""@ + name + "\" "@ + (if enabled {
            "aktiviert"@
        } else {
            "deaktiviert"@
        }) + "."@,
        Ok(false) => "Kein Alert \""@ + name + "\" gefunden."@,
        Err(e) => "Fehler: "@ + e,
    }
}

/// The reply after deleting all disabled alerts.
pub open spec fn cleanup_reply_spec(deleted: Result<usize, Seq<char>>) -> Seq<char> {
    match deleted {
        Ok(n) => if n == 0 {
            "Keine deaktivierten Alerts gefunden."@
        } else {
            "✅ "@ + decimal(n as nat) + " deaktivierte(r) Alert(s) gelöscht."@
        },
        Err(e) => "Fehler: "@ + e,
    }
}

pub open spec fn bool_result_view(r: Result<bool, String>) -> Result<bool, Seq<char>> {
    match r {
        Ok(b) => Ok(b),
        Err(e) => Err(e@),
    }
}

pub open spec fn count_result_view(r: Result<usize, String>) -> Result<usize, Seq<char>> {
    match r {
        Ok(n) => Ok(n),
        Err(e) => Err(e@),
    }
}

fn remove_reply(name: &str, deleted: Result<bool, String>) -> (r: String)
    ensures
        r@ == remove_reply_spec(name@, bool_result_view(deleted)),
{
    match deleted {
        Ok(true) => cat3("✅ Alert \"", name, "\" gelöscht."),
        Ok(false) => cat3("Kein Alert \"", name, "\" gefunden."),
        Err(e) => cat("Fehler: ", e.as_str()),
    }
}

fn toggle_reply(name: &str, enabled: bool, changed: Result<bool, String>) -> (r: String)
    ensures
        r@ == toggle_reply_spec(name@, enabled, bool_result_view(changed)),
{
    match changed {
        Ok(true) => {
            let mut r = cat3("✅ Alert \"", name, "\" ");
            r.append(
                if enabled {
                    "aktiviert"
                } else {
                    "deaktiviert"
                },
            );
            r.append(".");
            r
        },
        Ok(false) => cat3("Kein Alert \"", name, "\" gefunden."),
        Err(e) => cat("Fehler: ", e.as_str()),
    }
}

fn cleanup_reply(deleted: Result<usize, String>) -> (r: String)
    ensures
        r@ == cleanup_reply_spec(count_result_view(deleted)),
{
    match deleted {
        Ok(n) => if n == 0 {
            owned("Keine deaktivierten Alerts gefunden.")
        } else {
            cat3("✅ ", decimal_string(n).as_str(), " deaktivierte(r) Alert(s) gelöscht.")
        },
        Err(e) => cat("Fehler: ", e.as_str()),
    }
}

// ---------------------------------------------------------------------------
// The conversation with the alert store
// ---------------------------------------------------------------------------

/// Whether `s` parses as a URL (`reqwest::Url`, that is `url::Url`).
pub uninterp spec fn url_valid(s: Seq<char>) -> bool;

/// Parses `s` as a `reqwest::Url`. The verdict is only named.
#[verifier::external_body]
fn url_parses(s: &str) -> (r: bool)
    ensures
        r == url_valid(s@),
{
    s.parse::<reqwest::Url>().is_ok()
}

/// What the alert store is asked to do next.
pub enum StoreRequest {
    LoadAll,
    LoadByCreator(String),
    Get(String),
    Insert(Alert),
    UpdateField(String, String, String),
    Rename(String, String),
    SetEnabled(String, bool),
    Delete(String),
    DeleteDisabled,
    Fetch(String, String, String),
    /// Disable every alert whose creator is the given user.
    DisableByCreator(String),
    /// Record that the named alert was checked at the given UNIX time.
    UpdateLastChecked(String, i64),
    /// Record the named alert's value and the UNIX time it was read at.
    UpdateLastValue(String, String, i64),
}

/// What the alert store answered: `Alerts` to a load, `Found` to `Get`,
/// `Changed` to updates, renames, enables and deletes, `Count` to
/// `DeleteDisabled` and `DisableByCreator`, `Stored` to `Insert` and to the
/// two time stamps, `Fetched` to `Fetch`.
pub enum StoreReply {
    Alerts(Result<Vec<Alert>, String>),
    Found(Result<Option<Alert>, String>),
    Changed(Result<bool, String>),
    Count(Result<usize, String>),
    Stored(Result<(), String>),
    Fetched(Result<String, String>),
}

/// The arguments of `alerts create`: name, url, css, property, schedule.
pub struct CreateArgs {
    pub name: String,
    pub url: String,
    pub css: String,
    pub property: String,
    pub schedule: String,
}

/// Where a conversation stands while the store works.
pub enum Stage {
    Listing(bool),
    Info(String),
    CreateLookup(CreateArgs),
    CreateFetch(CreateArgs),
    CreateStore(CreateArgs, String),
    UpdateLookup(Vec<String>),
    UpdateWrite(String),
    Renaming(String, String),
    Removing(String),
    Toggling(String, bool),
    Cleaning,
}

/// The next move of a conversation: ask the store, or send the reply.
pub enum Step {
    Ask(Stage, StoreRequest),
    Reply(String),
}

pub enum RequestView {
    LoadAll,
    LoadByCreator(Seq<char>),
    Get(Seq<char>),
    Insert(AlertView),
    UpdateField(Seq<char>, Seq<char>, Seq<char>),
    Rename(Seq<char>, Seq<char>),
    SetEnabled(Seq<char>, bool),
    Delete(Seq<char>),
    DeleteDisabled,
    Fetch(Seq<char>, Seq<char>, Seq<char>),
    DisableByCreator(Seq<char>),
    UpdateLastChecked(Seq<char>, i64),
    UpdateLastValue(Seq<char>, Seq<char>, i64),
}

pub enum ReplyView {
    Alerts(Result<Seq<AlertView>, Seq<char>>),
    Found(Result<Option<AlertView>, Seq<char>>),
    Changed(Result<bool, Seq<char>>),
    Count(Result<usize, Seq<char>>),
    Stored(Result<(), Seq<char>>),
    Fetched(Result<Seq<char>, Seq<char>>),
}

/// name, url, css, property, schedule.
pub type CreateView = (Seq<char>, Seq<char>, Seq<char>, Seq<char>, Seq<char>);

pub enum StageView {
    Listing(bool),
    Info(Seq<char>),
    CreateLookup(CreateView),
    CreateFetch(CreateView),
    CreateStore(CreateView, Seq<char>),
    UpdateLookup(Seq<Seq<char>>),
    UpdateWrite(Seq<char>),
    Renaming(Seq<char>, Seq<char>),
    Removing(Seq<char>),
    Toggling(Seq<char>, bool),
    Cleaning,
}

pub enum StepView {
    Ask(StageView, RequestView),
    Reply(Seq<char>),
}

impl View for StoreRequest {
    type V = RequestView;

    open spec fn view(&self) -> RequestView {
        match self {
            StoreRequest::LoadAll => RequestView::LoadAll,
            StoreRequest::LoadByCreator(c) => RequestView::LoadByCreator(c@),
            StoreRequest::Get(n) => RequestView::Get(n@),
            StoreRequest::Insert(a) => RequestView::Insert(a@),
            StoreRequest::UpdateField(n, f, v) => RequestView::UpdateField(n@, f@, v@),
            StoreRequest::Rename(o, n) => RequestView::Rename(o@, n@),
            StoreRequest::SetEnabled(n, e) => RequestView::SetEnabled(n@, *e),
            StoreRequest::Delete(n) => RequestView::Delete(n@),
            StoreRequest::DeleteDisabled => RequestView::DeleteDisabled,
            StoreRequest::Fetch(u, c, p) => RequestView::Fetch(u@, c@, p@),
            StoreRequest::DisableByCreator(c) => RequestView::DisableByCreator(c@),
            StoreRequest::UpdateLastChecked(n, t) => RequestView::UpdateLastChecked(n@, *t),
            StoreRequest::UpdateLastValue(n, v, t) => RequestView::UpdateLastValue(n@, v@, *t),
        }
    }
}

impl View for StoreReply {
    type V = ReplyView;

    open spec fn view(&self) -> ReplyView {
        match self {
            StoreReply::Alerts(r) => ReplyView::Alerts(alerts_result_view(*r)),
            StoreReply::Found(r) => ReplyView::Found(found_view(*r)),
            StoreReply::Changed(r) => ReplyView::Changed(bool_result_view(*r)),
            StoreReply::Count(r) => ReplyView::Count(count_result_view(*r)),
            StoreReply::Stored(r) => ReplyView::Stored(
                match r {
                    Ok(()) => Ok(()),
                    Err(e) => Err(e@),
                },
            ),
            StoreReply::Fetched(r) => ReplyView::Fetched(
                match r {
                    Ok(v) => Ok(v@),
                    Err(e) => Err(e@),
                },
            ),
        }
    }
}

impl View for CreateArgs {
    type V = CreateView;

    open spec fn view(&self) -> CreateView {
        (self.name@, self.url@, self.css@, self.property@, self.schedule@)
    }
}

impl View for Stage {
    type V = StageView;

    open spec fn view(&self) -> StageView {
        match self {
            Stage::Listing(all) => StageView::Listing(*all),
            Stage::Info(n) => StageView::Info(n@),
            Stage::CreateLookup(c) => StageView::CreateLookup(c@),
            Stage::CreateFetch(c) => StageView::CreateFetch(c@),
            Stage::CreateStore(c, v) => StageView::CreateStore(c@, v@),
            Stage::UpdateLookup(t) => StageView::UpdateLookup(views(t@)),
            Stage::UpdateWrite(m) => StageView::UpdateWrite(m@),
            Stage::Renaming(o, n) => StageView::Renaming(o@, n@),
            Stage::Removing(n) => StageView::Removing(n@),
            Stage::Toggling(n, e) => StageView::Toggling(n@, *e),
            Stage::Cleaning => StageView::Cleaning,
        }
    }
}

impl View for Step {
    type V = StepView;

    open spec fn view(&self) -> StepView {
        match self {
            Step::Ask(s, r) => StepView::Ask(s@, r@),
            Step::Reply(m) => StepView::Reply(m@),
        }
    }
}

pub open spec fn create_usage() -> Seq<char> {
    "Verwendung: alerts create <name> <url> <css> <property> <schedule>\nBeispiel: alerts create preis https://shop.de \".price\" innerText \"0 8 * * 1-5\""@
}

pub open spec fn update_usage() -> Seq<char> {
    "Verwendung: alerts update <name> <feld> [wert]\nFelder: url, css, property, schedule, room, name"@
}

/// `alerts create <name> <url> <css> <property> <schedule...>`: the checked
/// arguments, or the reply that refuses them. The schedule is every token
/// from the fifth on, joined with spaces.
pub open spec fn create_args_spec(rest: Seq<char>) -> Result<CreateView, Seq<char>> {
    let t = shell_words(rest);
    if t.len() < 5 {
        Err(create_usage())
    } else {
        let schedule = join(t.skip(4), " "@);
        match crate::alerts::scheduler::schedule_error(schedule) {
            Some(e) => Err(e),
            None => if !url_valid(t[1]) {
                Err("Ungültige URL: \""@ + t[1] + "\""@)
            } else {
                Ok((t[0], t[1], t[2], t[3], schedule))
            },
        }
    }
}

/// The first step of `alerts <sub> <args>` sent by `sender` in `room`.
pub open spec fn start_spec(body: Seq<char>, sender: Seq<char>) -> StepView {
    let sub = subcommand(body);
    let rest = sub_args(body);
    if sub == ""@ || sub == "list"@ {
        StepView::Ask(StageView::Listing(false), RequestView::LoadByCreator(sender))
    } else if sub == "list-all"@ {
        StepView::Ask(StageView::Listing(true), RequestView::LoadAll)
    } else if sub == "info"@ {
        if rest.len() == 0 {
            StepView::Reply("Verwendung: alerts info <name>"@)
        } else {
            StepView::Ask(StageView::Info(rest), RequestView::Get(rest))
        }
    } else if sub == "create"@ {
        match create_args_spec(rest) {
            Err(m) => StepView::Reply(m),
            Ok(c) => StepView::Ask(StageView::CreateLookup(c), RequestView::Get(c.0)),
        }
    } else if sub == "update"@ {
        let t = shell_words(rest);
        if t.len() < 2 {
            StepView::Reply(update_usage())
        } else {
            StepView::Ask(StageView::UpdateLookup(t), RequestView::Get(t[0]))
        }
    } else if sub == "remove"@ {
        if rest.len() == 0 {
            StepView::Reply("Verwendung: alerts remove <name>"@)
        } else {
            StepView::Ask(StageView::Removing(rest), RequestView::Delete(rest))
        }
    } else if sub == "enable"@ || sub == "disable"@ {
        let enabled = sub == "enable"@;
        if rest.len() == 0 {
            StepView::Reply("Verwendung: alerts "@ + sub + " <name>"@)
        } else {
            StepView::Ask(StageView::Toggling(rest, enabled), RequestView::SetEnabled(rest, enabled))
        }
    } else if sub == "cleanup"@ {
        StepView::Ask(StageView::Cleaning, RequestView::DeleteDisabled)
    } else {
        StepView::Reply(
            "Unbekannter alerts-Befehl: \""@ + sub
                + "\".\nVerfügbare Befehle: list, list-all, info, create, update, remove, enable, disable, cleanup"@,
        )
    }
}

/// The alert that `alerts create` stores.
pub open spec fn new_alert(c: CreateView, value: Seq<char>, room: Seq<char>, sender: Seq<char>, now: i64) -> AlertView {
    AlertView {
        name: c.0,
        url: c.1,
        css: c.2,
        property: c.3,
        schedule: c.4,
        room_id: room,
        creator: sender,
        last_value: Some(value),
        last_checked: Some(now),
        enabled: true,
        created_at: now,
    }
}

/// The confirmation after `alerts create`, with the template filled in.
pub open spec fn created_text(c: CreateView, value: Seq<char>, template: Seq<char>) -> Seq<char> {
    let confirmation = replace_all(
        replace_all(
            replace_all(
                replace_all(
                    replace_all(replace_all(template, "{name}"@, c.0), "{url}"@, c.1),
                    "{old}"@,
                    "–"@,
                ),
                "{new}"@,
                value,
            ),
            "{css}"@,
            c.2,
        ),
        "{property}"@,
        c.3,
    );
    "✅ Alert \""@ + c.0 + "\" erstellt.\n\nAktueller Wert: "@ + value + "\n\n"@ + confirmation
}

/// `alerts update <name> <field> [value...]` once the alert was found.
pub open spec fn update_decide_spec(t: Seq<Seq<char>>, room: Seq<char>) -> StepView {
    let name = t[0];
    let field = t[1];
    if field == "room"@ {
        StepView::Ask(
            StageView::UpdateWrite("✅ Raum für \""@ + name + "\" aktualisiert."@),
            RequestView::UpdateField(
                name,
                "room_id"@,
                if t.len() >= 3 {
                    t[2]
                } else {
                    room
                },
            ),
        )
    } else if field == "name"@ {
        if t.len() < 3 {
            StepView::Reply("Verwendung: alerts update <name> name <neuer_name>"@)
        } else {
            StepView::Ask(StageView::Renaming(name, t[2]), RequestView::Rename(name, t[2]))
        }
    } else if field == "schedule"@ {
        if t.len() < 3 {
            StepView::Reply("Verwendung: alerts update <name> schedule <cron>"@)
        } else {
            let s = join(t.skip(2), " "@);
            match crate::alerts::scheduler::schedule_error(s) {
                Some(e) => StepView::Reply(e),
                None => StepView::Ask(
                    StageView::UpdateWrite("✅ Schedule für \""@ + name + "\" aktualisiert."@),
                    RequestView::UpdateField(name, "schedule"@, s),
                ),
            }
        }
    } else if t.len() < 3 {
        StepView::Reply("Verwendung: alerts update <name> "@ + field + " <wert>"@)
    } else if field == "url"@ || field == "css"@ || field == "property"@ {
        StepView::Ask(
            StageView::UpdateWrite("✅ "@ + field + " für \""@ + name + "\" aktualisiert."@),
            RequestView::UpdateField(name, field, t[2]),
        )
    } else {
        StepView::Reply(
            "Unbekanntes Feld \""@ + field + "\". Erlaubt: url, css, property, schedule, room, name"@,
        )
    }
}

pub open spec fn unexpected_reply() -> Seq<char> {
    "Fehler: unerwartete Antwort"@
}

/// The next step once the store answered `reply` in `stage`, for a command
/// sent by `sender` in `room`, at the time `now`. An answer of the wrong
/// kind ends the conversation with `unexpected_reply()`.
pub open spec fn resume_spec(
    stage: StageView,
    reply: ReplyView,
    sender: Seq<char>,
    room: Seq<char>,
    template: Seq<char>,
    now: i64,
) -> StepView {
    match stage {
        StageView::Listing(all) => match reply {
            ReplyView::Alerts(r) => StepView::Reply(list_reply_spec(r, sender, room, all)),
            _ => StepView::Reply(unexpected_reply()),
        },
        StageView::Info(name) => match reply {
            ReplyView::Found(r) => StepView::Reply(info_reply_spec(name, r)),
            _ => StepView::Reply(unexpected_reply()),
        },
        StageView::CreateLookup(c) => match reply {
            ReplyView::Found(Ok(Some(_))) => StepView::Reply(
                "Ein Alert mit dem Namen \""@ + c.0 + "\" existiert bereits."@,
            ),
            ReplyView::Found(Err(e)) => StepView::Reply("DB-Fehler: "@ + e),
            ReplyView::Found(Ok(None)) => StepView::Ask(
                StageView::CreateFetch(c),
                RequestView::Fetch(c.1, c.2, c.3),
            ),
            _ => StepView::Reply(unexpected_reply()),
        },
        StageView::CreateFetch(c) => match reply {
            ReplyView::Fetched(Err(e)) => StepView::Reply(
                "❌ Alert konnte nicht erstellt werden – Abruf fehlgeschlagen:\n"@ + e,
            ),
            ReplyView::Fetched(Ok(v)) => StepView::Ask(
                StageView::CreateStore(c, v),
                RequestView::Insert(new_alert(c, v, room, sender, now)),
            ),
            _ => StepView::Reply(unexpected_reply()),
        },
        StageView::CreateStore(c, v) => match reply {
            ReplyView::Stored(Err(e)) => StepView::Reply("Fehler beim Speichern: "@ + e),
            ReplyView::Stored(Ok(())) => StepView::Reply(created_text(c, v, template)),
            _ => StepView::Reply(unexpected_reply()),
        },
        StageView::UpdateLookup(t) => if t.len() < 2 {
            StepView::Reply(unexpected_reply())
        } else {
            match reply {
            ReplyView::Found(Ok(None)) => StepView::Reply(
                "Kein Alert \""@ + t[0] + "\" gefunden."@,
            ),
            ReplyView::Found(Err(e)) => StepView::Reply("DB-Fehler: "@ + e),
            ReplyView::Found(Ok(Some(_))) => update_decide_spec(t, room),
            _ => StepView::Reply(unexpected_reply()),
            }
        },
        StageView::UpdateWrite(ok) => match reply {
            ReplyView::Changed(Ok(_)) => StepView::Reply(ok),
            ReplyView::Changed(Err(e)) => StepView::Reply("Fehler: "@ + e),
            _ => StepView::Reply(unexpected_reply()),
        },
        StageView::Renaming(old, new) => match reply {
            ReplyView::Changed(Ok(true)) => StepView::Reply(
                "✅ Alert umbenannt in \""@ + new + "\"."@,
            ),
            ReplyView::Changed(Ok(false)) => StepView::Reply(
                "Kein Alert \""@ + old + "\" gefunden."@,
            ),
            ReplyView::Changed(Err(e)) => StepView::Reply("Fehler: "@ + e),
            _ => StepView::Reply(unexpected_reply()),
        },
        StageView::Removing(name) => match reply {
            ReplyView::Changed(r) => StepView::Reply(remove_reply_spec(name, r)),
            _ => StepView::Reply(unexpected_reply()),
        },
        StageView::Toggling(name, enabled) => match reply {
            ReplyView::Changed(r) => StepView::Reply(toggle_reply_spec(name, enabled, r)),
            _ => StepView::Reply(unexpected_reply()),
        },
        StageView::Cleaning => match reply {
            ReplyView::Count(r) => StepView::Reply(cleanup_reply_spec(r)),
            _ => StepView::Reply(unexpected_reply()),
        },
    }
}

/// The tokens from index `k` on, joined with single spaces.
fn join_from(tokens: &Vec<String>, k: usize) -> (r: String)
    requires
        k <= tokens@.len(),
    ensures
        r@ == join(views(tokens@).skip(k as int), " "@),
{
    let mut tail: Vec<String> = Vec::new();
    let mut i = k;
    while i < tokens.len()
        invariant
            k <= i <= tokens@.len(),
            views(tail@) == views(tokens@).subrange(k as int, i as int),
        decreases tokens.len() - i,
    {
        let ghost before = tail@;
        tail.push(tokens[i].clone());
        assert(views(tail@) =~= views(tokens@).subrange(k as int, i + 1)) by {
            assert(views(tail@) =~= views(before).push(tokens@[i as int]@));
        }
        i = i + 1;
    }
    assert(views(tokens@).subrange(k as int, tokens@.len() as int) =~= views(tokens@).skip(k as int));
    crate::text::join_strings(&tail, " ")
}

/// The checked arguments of `alerts create`, or the reply that refuses them.
pub fn create_args(rest: &str) -> (r: Result<CreateArgs, String>)
    ensures
        match r {
            Ok(c) => create_args_spec(rest@) == Ok::<CreateView, Seq<char>>(c@),
            Err(m) => create_args_spec(rest@) == Err::<CreateView, Seq<char>>(m@),
        },
{
    let tokens = shell_split(rest);
    if tokens.len() < 5 {
        return Err(
            owned(
                "Verwendung: alerts create <name> <url> <css> <property> <schedule>\nBeispiel: alerts create preis https://shop.de \".price\" innerText \"0 8 * * 1-5\"",
            ),
        );
    }
    let schedule = join_from(&tokens, 4);
    match crate::alerts::scheduler::validate_schedule(schedule.as_str()) {
        Err(e) => return Err(e),
        Ok(()) => {},
    }
    assert(views(tokens@)[1] == tokens@[1]@);
    if !url_parses(tokens[1].as_str()) {
        return Err(cat3("Ungültige URL: \"", tokens[1].as_str(), "\""));
    }
    assert(views(tokens@)[0] == tokens@[0]@);
    assert(views(tokens@)[2] == tokens@[2]@);
    assert(views(tokens@)[3] == tokens@[3]@);
    Ok(
        CreateArgs {
            name: tokens[0].clone(),
            url: tokens[1].clone(),
            css: tokens[2].clone(),
            property: tokens[3].clone(),
            schedule,
        },
    )
}

/// The first step of the command `alerts <sub> <args>` sent by `sender`.
pub fn start(body: &str, sender: &str) -> (s: Step)
    ensures
        s@ == start_spec(body@, sender@),
{
    let (sub, rest) = parse_alerts_body(body);
    if sub == owned("") || sub == owned("list") {
        Step::Ask(Stage::Listing(false), StoreRequest::LoadByCreator(owned(sender)))
    } else if sub == owned("list-all") {
        Step::Ask(Stage::Listing(true), StoreRequest::LoadAll)
    } else if sub == owned("info") {
        if rest.as_str().is_empty() {
            Step::Reply(owned("Verwendung: alerts info <name>"))
        } else {
            Step::Ask(Stage::Info(rest.clone()), StoreRequest::Get(rest))
        }
    } else if sub == owned("create") {
        match create_args(rest.as_str()) {
            Err(m) => Step::Reply(m),
            Ok(c) => {
                let name = c.name.clone();
                Step::Ask(Stage::CreateLookup(c), StoreRequest::Get(name))
            },
        }
    } else if sub == owned("update") {
        let tokens = shell_split(rest.as_str());
        if tokens.len() < 2 {
            Step::Reply(
                owned(
                    "Verwendung: alerts update <name> <feld> [wert]\nFelder: url, css, property, schedule, room, name",
                ),
            )
        } else {
            let name = tokens[0].clone();
            assert(views(tokens@)[0] == tokens@[0]@);
            Step::Ask(Stage::UpdateLookup(tokens), StoreRequest::Get(name))
        }
    } else if sub == owned("remove") {
        if rest.as_str().is_empty() {
            Step::Reply(owned("Verwendung: alerts remove <name>"))
        } else {
            Step::Ask(Stage::Removing(rest.clone()), StoreRequest::Delete(rest))
        }
    } else if sub == owned("enable") || sub == owned("disable") {
        let enabled = sub == owned("enable");
        if rest.as_str().is_empty() {
            Step::Reply(cat3("Verwendung: alerts ", sub.as_str(), " <name>"))
        } else {
            Step::Ask(Stage::Toggling(rest.clone(), enabled), StoreRequest::SetEnabled(rest, enabled))
        }
    } else if sub == owned("cleanup") {
        Step::Ask(Stage::Cleaning, StoreRequest::DeleteDisabled)
    } else {
        Step::Reply(
            cat3(
                "Unbekannter alerts-Befehl: \"",
                sub.as_str(),
                "\".\nVerfügbare Befehle: list, list-all, info, create, update, remove, enable, disable, cleanup",
            ),
        )
    }
}

fn created_text_exec(c: &CreateArgs, value: &str, template: &str) -> (r: String)
    ensures
        r@ == created_text(c@, value@, template@),
{
    proof {
        reveal_strlit("{name}");
        reveal_strlit("{url}");
        reveal_strlit("{old}");
        reveal_strlit("{new}");
        reveal_strlit("{css}");
        reveal_strlit("{property}");
    }
    let a = crate::text::replace_str(template, "{name}", c.name.as_str());
    let b = crate::text::replace_str(a.as_str(), "{url}", c.url.as_str());
    let d = crate::text::replace_str(b.as_str(), "{old}", "–");
    let e = crate::text::replace_str(d.as_str(), "{new}", value);
    let f = crate::text::replace_str(e.as_str(), "{css}", c.css.as_str());
    let confirmation = crate::text::replace_str(f.as_str(), "{property}", c.property.as_str());
    let mut r = cat3("✅ Alert \"", c.name.as_str(), "\" erstellt.\n\nAktueller Wert: ");
    r.append(value);
    r.append("\n\n");
    r.append(confirmation.as_str());
    r
}

/// `alerts update <name> <field> [value...]` once the alert was found.
fn update_decide(t: Vec<String>, room: &str) -> (s: Step)
    requires
        t@.len() >= 2,
    ensures
        s@ == update_decide_spec(views(t@), room@),
{
    assert(views(t@)[0] == t@[0]@);
    assert(views(t@)[1] == t@[1]@);
    if t.len() >= 3 {
        assert(views(t@)[2] == t@[2]@);
    }
    let name = t[0].clone();
    let field = t[1].clone();
    if field == owned("room") {
        let value = if t.len() >= 3 {
            t[2].clone()
        } else {
            owned(room)
        };
        Step::Ask(
            Stage::UpdateWrite(cat3("✅ Raum für \"", name.as_str(), "\" aktualisiert.")),
            StoreRequest::UpdateField(name, owned("room_id"), value),
        )
    } else if field == owned("name") {
        if t.len() < 3 {
            Step::Reply(owned("Verwendung: alerts update <name> name <neuer_name>"))
        } else {
            Step::Ask(
                Stage::Renaming(name.clone(), t[2].clone()),
                StoreRequest::Rename(name, t[2].clone()),
            )
        }
    } else if field == owned("schedule") {
        if t.len() < 3 {
            Step::Reply(owned("Verwendung: alerts update <name> schedule <cron>"))
        } else {
            let s = join_from(&t, 2);
            match crate::alerts::scheduler::validate_schedule(s.as_str()) {
                Err(e) => Step::Reply(e),
                Ok(()) => Step::Ask(
                    Stage::UpdateWrite(cat3("✅ Schedule für \"", name.as_str(), "\" aktualisiert.")),
                    StoreRequest::UpdateField(name, owned("schedule"), s),
                ),
            }
        }
    } else if t.len() < 3 {
        Step::Reply(cat3("Verwendung: alerts update <name> ", field.as_str(), " <wert>"))
    } else if field == owned("url") || field == owned("css") || field == owned("property") {
        let mut ok = cat3("✅ ", field.as_str(), " für \"");
        ok.append(name.as_str());
        ok.append("\" aktualisiert.");
        Step::Ask(Stage::UpdateWrite(ok), StoreRequest::UpdateField(name, field, t[2].clone()))
    } else {
        Step::Reply(
            cat3(
                "Unbekanntes Feld \"",
                field.as_str(),
                "\". Erlaubt: url, css, property, schedule, room, name",
            ),
        )
    }
}

fn unexpected() -> (r: Step)
    ensures
        r@ == StepView::Reply(unexpected_reply()),
{
    Step::Reply(owned("Fehler: unerwartete Antwort"))
}

/// The next step once the store answered `reply` in `stage`, at the time
/// `now`, for a command of `sender` in `room`.
pub fn resume_at(stage: Stage, reply: StoreReply, sender: &str, room: &str, template: &str, now: i64) -> (s: Step)
    ensures
        s@ == resume_spec(stage@, reply@, sender@, room@, template@, now),
{
    match stage {
        Stage::Listing(all) => match reply {
            StoreReply::Alerts(r) => Step::Reply(list_reply(r, sender, room, all)),
            _ => unexpected(),
        },
        Stage::Info(name) => match reply {
            StoreReply::Found(r) => Step::Reply(info_reply(name.as_str(), r)),
            _ => unexpected(),
        },
        Stage::CreateLookup(c) => match reply {
            StoreReply::Found(Ok(Some(_))) => Step::Reply(
                cat3("Ein Alert mit dem Namen \"", c.name.as_str(), "\" existiert bereits."),
            ),
            StoreReply::Found(Err(e)) => Step::Reply(cat("DB-Fehler: ", e.as_str())),
            StoreReply::Found(Ok(None)) => {
                let req = StoreRequest::Fetch(c.url.clone(), c.css.clone(), c.property.clone());
                Step::Ask(Stage::CreateFetch(c), req)
            },
            _ => unexpected(),
        },
        Stage::CreateFetch(c) => match reply {
            StoreReply::Fetched(Err(e)) => Step::Reply(
                cat("❌ Alert konnte nicht erstellt werden – Abruf fehlgeschlagen:\n", e.as_str()),
            ),
            StoreReply::Fetched(Ok(v)) => {
                let alert = Alert {
                    name: c.name.clone(),
                    url: c.url.clone(),
                    css: c.css.clone(),
                    property: c.property.clone(),
                    schedule: c.schedule.clone(),
                    room_id: owned(room),
                    creator: owned(sender),
                    last_value: Some(v.clone()),
                    last_checked: Some(now),
                    enabled: true,
                    created_at: now,
                };
                Step::Ask(Stage::CreateStore(c, v), StoreRequest::Insert(alert))
            },
            _ => unexpected(),
        },
        Stage::CreateStore(c, v) => match reply {
            StoreReply::Stored(Err(e)) => Step::Reply(cat("Fehler beim Speichern: ", e.as_str())),
            StoreReply::Stored(Ok(())) => Step::Reply(created_text_exec(&c, v.as_str(), template)),
            _ => unexpected(),
        },
        Stage::UpdateLookup(t) => {
            if t.len() < 2 {
                return unexpected();
            }
            match reply {
                StoreReply::Found(Ok(None)) => {
                    assert(views(t@)[0] == t@[0]@);
                    Step::Reply(cat3("Kein Alert \"", t[0].as_str(), "\" gefunden."))
                },
                StoreReply::Found(Err(e)) => Step::Reply(cat("DB-Fehler: ", e.as_str())),
                StoreReply::Found(Ok(Some(_))) => update_decide(t, room),
                _ => unexpected(),
            }
        },
        Stage::UpdateWrite(ok) => match reply {
            StoreReply::Changed(Ok(_)) => Step::Reply(ok),
            StoreReply::Changed(Err(e)) => Step::Reply(cat("Fehler: ", e.as_str())),
            _ => unexpected(),
        },
        Stage::Renaming(old, new) => match reply {
            StoreReply::Changed(Ok(true)) => Step::Reply(
                cat3("✅ Alert umbenannt in \"", new.as_str(), "\"."),
            ),
            StoreReply::Changed(Ok(false)) => Step::Reply(
                cat3("Kein Alert \"", old.as_str(), "\" gefunden."),
            ),
            StoreReply::Changed(Err(e)) => Step::Reply(cat("Fehler: ", e.as_str())),
            _ => unexpected(),
        },
        Stage::Removing(name) => match reply {
            StoreReply::Changed(r) => Step::Reply(remove_reply(name.as_str(), r)),
            _ => unexpected(),
        },
        Stage::Toggling(name, enabled) => match reply {
            StoreReply::Changed(r) => Step::Reply(toggle_reply(name.as_str(), enabled, r)),
            _ => unexpected(),
        },
        Stage::Cleaning => match reply {
            StoreReply::Count(r) => Step::Reply(cleanup_reply(r)),
            _ => unexpected(),
        },
    }
}

/// The next step once the store answered `reply` in `stage`; an alert that
/// `alerts create` stores is stamped with the time now.
pub fn resume(stage: Stage, reply: StoreReply, sender: &str, room: &str, template: &str) -> (s: Step)
    ensures
        exists|now: i64| s@ == resume_spec(stage@, reply@, sender@, room@, template@, now),
{
    let now = crate::alerts::scheduler::now_timestamp();
    resume_at(stage, reply, sender, room, template, now)
}

// ---------------------------------------------------------------------------
// Laws of the conversation
// ---------------------------------------------------------------------------

/// How many more store requests a stage can lead to, at most.
pub open spec fn stage_rank(s: StageView) -> nat {
    match s {
        StageView::CreateLookup(_) => 3,
        StageView::CreateFetch(_) => 2,
        StageView::UpdateLookup(_) => 2,
        _ => 1,
    }
}

/// Every step that asks the store again moves to a stage of lower rank, and
/// a command starts at rank three at most: an `alerts` command makes at most
/// three store requests before it replies.
pub proof fn law_conversation_ends(
    body: Seq<char>,
    stage: StageView,
    reply: ReplyView,
    sender: Seq<char>,
    room: Seq<char>,
    template: Seq<char>,
    now: i64,
)
    ensures
        start_spec(body, sender) matches StepView::Ask(first, _) ==> stage_rank(first) <= 3,
        resume_spec(stage, reply, sender, room, template, now) matches StepView::Ask(next, _)
            ==> stage_rank(next) < stage_rank(stage),
{
}

/// `alerts update` writes only the columns `url`, `css`, `property`,
/// `schedule` and `room_id`, whatever the field named in the command.
pub proof fn law_update_writes_known_columns(t: Seq<Seq<char>>, room: Seq<char>)
    requires
        t.len() >= 2,
    ensures
        update_decide_spec(t, room) matches StepView::Ask(_, RequestView::UpdateField(_, col, _))
            ==> crate::alerts::column_spec(col) == Some(col),
{
}

/// `alerts update <name> <field> <value>` writes the column the command
/// names, of the alert it names, with the value it gives: for `url`, `css`
/// and `property` the request is exactly that, and no update ever writes a
/// column other than the one named (`room` writes `room_id`) or another
/// alert.
pub proof fn law_update_writes_the_named_field(t: Seq<Seq<char>>, room: Seq<char>)
    requires
        t.len() >= 2,
    ensures
        t.len() >= 3 && (t[1] == "url"@ || t[1] == "css"@ || t[1] == "property"@) ==> (
        update_decide_spec(t, room) matches StepView::Ask(_, RequestView::UpdateField(n, col, v))
            && n == t[0] && col == t[1] && v == t[2]),
        update_decide_spec(t, room) matches StepView::Ask(_, RequestView::UpdateField(n, col, _))
            ==> n == t[0] && (col == t[1] || (t[1] == "room"@ && col == "room_id"@)),
{
    reveal_strlit("url");
    reveal_strlit("css");
    reveal_strlit("property");
    reveal_strlit("room");
    reveal_strlit("name");
    reveal_strlit("schedule");
    reveal_strlit("room_id");
    assert("property"@ != "schedule"@) by {
        assert("property"@[0] != "schedule"@[0]);
    }
    assert("url"@.len() == 3 && "css"@.len() == 3);
    assert("room"@.len() == 4 && "name"@.len() == 4 && "schedule"@.len() == 8);
    assert("url"@ != "room"@ && "url"@ != "name"@ && "url"@ != "schedule"@);
    assert("css"@ != "room"@ && "css"@ != "name"@ && "css"@ != "schedule"@);
    assert("property"@ != "room"@ && "property"@ != "name"@);
}

/// The alert that `alerts create` stores is the one asked for: enabled,
/// created by the sender for the room the command came from, with the value
/// just fetched as its last value, checked and created now.
pub proof fn law_create_stores_requested_alert(
    c: CreateView,
    value: Seq<char>,
    sender: Seq<char>,
    room: Seq<char>,
    template: Seq<char>,
    now: i64,
)
    ensures
        resume_spec(
            StageView::CreateFetch(c),
            ReplyView::Fetched(Ok(value)),
            sender,
            room,
            template,
            now,
        ) matches StepView::Ask(_, RequestView::Insert(a)) && a.name == c.0 && a.url == c.1 && a.css
            == c.2 && a.property == c.3 && a.schedule == c.4 && a.room_id == room && a.creator
            == sender && a.last_value == Some(value) && a.last_checked == Some(now) && a.enabled
            && a.created_at == now,
{
}

} // verus!
