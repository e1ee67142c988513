//! The public chat commands `help` and `mensa`, and the restricted
//! `allow` / `disallow`.
use chrono::Datelike;
use vstd::prelude::*;
use crate::access::{lists_user, AccessControl, AccessOutcome, AccessView};
use crate::alerts::commands::{RequestView, StoreRequest};
use crate::mensa::{format_meals, format_meals_spec, parse_html_meals, parse_html_meals_spec, Meals};
use crate::text::{
    cat3, char_index_from, chars_of, find, lemma_first_char, opt_view, owned, string_of, trim,
    trim_bounds,
};

verus! {

// ---------------------------------------------------------------------------
// The argument of a command
// ---------------------------------------------------------------------------

/// What follows the first space of `body`, trimmed, when that is not empty
/// (`body.splitn(2, ' ').nth(1).map(str::trim).filter(|s| !s.is_empty())`).
pub open spec fn command_arg(body: Seq<char>) -> Option<Seq<char>> {
    match find(body, seq![' ']) {
        Some(i) => {
            let t = trim(body.skip(i + 1));
            if t.len() > 0 {
                Some(t)
            } else {
                None
            }
        },
        None => None,
    }
}

/// The argument of the command in `body`.
pub fn command_arg_exec(body: &str) -> (r: Option<String>)
    ensures
        opt_view(r) == command_arg(body@),
{
    let v = chars_of(body);
    let i = char_index_from(&v, 0, ' ');
    proof {
        lemma_first_char(v@, ' ', i as int);
    }
    if i == v.len() {
        return None;
    }
    let rest = string_of(&v, i + 1, v.len());
    let rv = chars_of(rest.as_str());
    let (lo, hi) = trim_bounds(&rv);
    assert(rest@ =~= body@.skip(i + 1));
    if lo == hi {
        return None;
    }
    Some(string_of(&rv, lo, hi))
}

// ---------------------------------------------------------------------------
// help
// ---------------------------------------------------------------------------

pub open spec fn public_commands_text() -> Seq<char> {
    "mensa <tag>         – Zeigt den Speiseplan der Mensa Furtwangen\nhelp <befehl>       – Zeigt Hilfe zu einem Befehl"@
}

pub open spec fn restricted_commands_text() -> Seq<char> {
    "allow <@nutzer>     – Nutzer zur Erlaubtenliste hinzufügen\ndisallow <@nutzer>  – Nutzer aus der Erlaubtenliste entfernen"@
}

pub open spec fn help_mensa_text() -> Seq<char> {
    "mensa <tag>\n\nZeigt den Speiseplan der Mensa Furtwangen (HFU).\n\nParameter:\n(kein)  – Heutiger Tag\n0       – Ganze Woche (Mo–Sa)\n1       – Montag\n2       – Dienstag\n3       – Mittwoch\n4       – Donnerstag\n5       – Freitag\n6       – Samstag\n\nBeispiele:\nmensa    → Heute\nmensa 0  → Ganze Woche\nmensa 3  → Mittwoch"@
}

pub open spec fn help_allow_text() -> Seq<char> {
    "allow <@nutzer:server>\n\nFügt einen Matrix-Nutzer zur Erlaubtenliste hinzu.\nNur verfügbar für bereits erlaubte Nutzer (im privaten Chat).\n\nBeispiel:\nallow @freund:matrix.org"@
}

pub open spec fn help_disallow_text() -> Seq<char> {
    "disallow <@nutzer:server>\n\nEntfernt einen Matrix-Nutzer aus der Erlaubtenliste.\nAdmins können nicht entfernt werden.\nNur verfügbar für bereits erlaubte Nutzer (im privaten Chat).\n\nBeispiel:\ndisallow @freund:matrix.org"@
}

/// The reply to `help` with the argument `arg`.
pub open spec fn help_text(arg: Option<Seq<char>>, show_restricted: bool) -> Seq<char> {
    match arg {
        None => if show_restricted {
            "Verfügbare Befehle:\n\n"@ + public_commands_text() + "\n"@ + restricted_commands_text()
                + "\n\nTipp: `help <befehl>` für mehr Details"@
        } else {
            "Verfügbare Befehle:\n\n"@ + public_commands_text()
                + "\n\nTipp: `help <befehl>` für mehr Details"@
        },
        Some(a) => if a == "mensa"@ {
            help_mensa_text()
        } else if a == "allow"@ {
            help_allow_text()
        } else if a == "disallow"@ {
            help_disallow_text()
        } else {
            "Unbekannter Befehl: \""@ + a + "\". Verfügbare Befehle: "@ + (if show_restricted {
                "mensa, allow, disallow"@
            } else {
                "mensa"@
            })
        },
    }
}

/// The reply to `help [<command>]`. `show_restricted` is set for allowed
/// users, which adds `allow` and `disallow` to the list.
pub fn handle_help(body: &str, show_restricted: bool) -> (r: String)
    ensures
        r@ == help_text(command_arg(body@), show_restricted),
{
    let arg = command_arg_exec(body);
    match arg {
        None => {
            let public_cmds = "mensa <tag>         – Zeigt den Speiseplan der Mensa Furtwangen\nhelp <befehl>       – Zeigt Hilfe zu einem Befehl";
            let restricted_cmds = "allow <@nutzer>     – Nutzer zur Erlaubtenliste hinzufügen\ndisallow <@nutzer>  – Nutzer aus der Erlaubtenliste entfernen";
            let mut r = owned("Verfügbare Befehle:\n\n");
            r.append(public_cmds);
            if show_restricted {
                r.append("\n");
                r.append(restricted_cmds);
            }
            r.append("\n\nTipp: `help <befehl>` für mehr Details");
            r
        },
        Some(a) => {
            if a == owned("mensa") {
                owned(
                    "mensa <tag>\n\nZeigt den Speiseplan der Mensa Furtwangen (HFU).\n\nParameter:\n(kein)  – Heutiger Tag\n0       – Ganze Woche (Mo–Sa)\n1       – Montag\n2       – Dienstag\n3       – Mittwoch\n4       – Donnerstag\n5       – Freitag\n6       – Samstag\n\nBeispiele:\nmensa    → Heute\nmensa 0  → Ganze Woche\nmensa 3  → Mittwoch",
                )
            } else if a == owned("allow") {
                owned(
                    "allow <@nutzer:server>\n\nFügt einen Matrix-Nutzer zur Erlaubtenliste hinzu.\nNur verfügbar für bereits erlaubte Nutzer (im privaten Chat).\n\nBeispiel:\nallow @freund:matrix.org",
                )
            } else if a == owned("disallow") {
                owned(
                    "disallow <@nutzer:server>\n\nEntfernt einen Matrix-Nutzer aus der Erlaubtenliste.\nAdmins können nicht entfernt werden.\nNur verfügbar für bereits erlaubte Nutzer (im privaten Chat).\n\nBeispiel:\ndisallow @freund:matrix.org",
                )
            } else {
                let known = if show_restricted {
                    "mensa, allow, disallow"
                } else {
                    "mensa"
                };
                let mut r = cat3("Unbekannter Befehl: \"", a.as_str(), "\". Verfügbare Befehle: ");
                r.append(known);
                r
            }
        },
    }
}

// ---------------------------------------------------------------------------
// allow / disallow
// ---------------------------------------------------------------------------

/// `allow <@user:server>`: adds the user to the allowed list.
pub fn handle_allow(body: &str, access: &mut AccessControl) -> (out: AccessOutcome)
    ensures
        command_arg(body@) is None ==> final(access)@ == old(access)@ && out is Unchanged
            && out.message() == "Verwendung: allow @nutzer:server"@,
        command_arg(body@) matches Some(id) ==> final(access)@ == old(access)@.add_spec(id) && (
        old(access)@.permits(id) ==> out is Unchanged && out.message() == id
            + " ist bereits erlaubt."@) && (!old(access)@.permits(id) ==> out is Changed
            && out.message() == id + " wurde zur Erlaubtenliste hinzugefügt."@),
{
    match command_arg_exec(body) {
        None => AccessOutcome::Unchanged(owned("Verwendung: allow @nutzer:server")),
        Some(user_id) => access.add_user(user_id.as_str()),
    }
}

/// Whether `disallow` with the message `body` removes somebody from the
/// lists `v`: a user named in it who is no admin and is on the allowed list.
pub open spec fn disallow_removes(body: Seq<char>, v: AccessView) -> bool {
    match command_arg(body) {
        Some(id) => !v.is_admin(id) && lists_user(v.allowed, id),
        None => false,
    }
}

/// `disallow <@user:server>`: removes the user from the allowed list.
pub fn handle_disallow(body: &str, access: &mut AccessControl) -> (out: AccessOutcome)
    ensures
        command_arg(body@) is None ==> final(access)@ == old(access)@ && out is Unchanged
            && out.message() == "Verwendung: disallow @nutzer:server"@,
        (out is Changed) == disallow_removes(body@, old(access)@),
        command_arg(body@) matches Some(id) ==> final(access)@ == old(access)@.remove_spec(id) && (
        old(access)@.is_admin(id) ==> out is Unchanged && out.message() == id
            + " ist ein Admin und kann nicht entfernt werden."@) && (!old(access)@.is_admin(id)
            && !lists_user(old(access)@.allowed, id) ==> out is Unchanged
            && out.message() == id + " ist nicht in der Erlaubtenliste."@) && (!old(
            access,
        )@.is_admin(id) && lists_user(old(access)@.allowed, id) ==> out is Changed
            && out.message() == id + " wurde aus der Erlaubtenliste entfernt."@),
{
    match command_arg_exec(body) {
        None => AccessOutcome::Unchanged(owned("Verwendung: disallow @nutzer:server")),
        Some(user_id) => access.remove_user(user_id.as_str()),
    }
}

/// What the alert store must do after a `disallow` command: a user who was
/// removed from the allowed list has all their alerts disabled.
pub open spec fn disallow_followup_spec(body: Seq<char>, removed: bool) -> Option<RequestView> {
    match command_arg(body) {
        Some(id) => if removed {
            Some(RequestView::DisableByCreator(id))
        } else {
            None
        },
        None => None,
    }
}

/// A user whom `disallow` removes from the allowed list has all their alerts
/// disabled: the request that follows the command disables the alerts
/// created by exactly that user.
pub proof fn law_disallowed_user_loses_alerts(body: Seq<char>, v: AccessView, id: Seq<char>)
    requires
        command_arg(body) == Some(id),
        !v.is_admin(id),
        lists_user(v.allowed, id),
    ensures
        disallow_removes(body, v),
        disallow_followup_spec(body, disallow_removes(body, v)) == Some(
            RequestView::DisableByCreator(id),
        ),
{
}

/// The store request that follows `handle_disallow(body, ..)` with the
/// outcome `outcome`: disabling the alerts of the user it removed, or none
/// where nobody was removed.
pub fn disallow_followup(body: &str, outcome: &AccessOutcome) -> (r: Option<StoreRequest>)
    ensures
        match r {
            Some(req) => disallow_followup_spec(body@, *outcome is Changed) == Some(req@),
            None => disallow_followup_spec(body@, *outcome is Changed) is None,
        },
{
    if !outcome.needs_save() {
        return None;
    }
    match command_arg_exec(body) {
        Some(user_id) => Some(StoreRequest::DisableByCreator(user_id)),
        None => None,
    }
}

// ---------------------------------------------------------------------------
// mensa
// ---------------------------------------------------------------------------

/// The menu day shown for today, given today's weekday numbered from
/// Monday = 1: Sunday shows Monday.
pub open spec fn menu_day(weekday: u32) -> usize {
    if weekday == 7 {
        1
    } else {
        weekday as usize
    }
}

/// The days that `mensa <arg>` shows, or the error reply, when today is
/// `weekday` (Monday = 1).
pub open spec fn mensa_days_spec(arg: Option<Seq<char>>, weekday: u32) -> Result<Seq<usize>, Seq<char>> {
    match arg {
        None => Ok(seq![menu_day(weekday)]),
        Some(s) => if s.len() == 0 {
            Ok(seq![menu_day(weekday)])
        } else if s == "0"@ {
            Ok(seq![1usize, 2, 3, 4, 5, 6])
        } else if s == "1"@ {
            Ok(seq![1usize])
        } else if s == "2"@ {
            Ok(seq![2usize])
        } else if s == "3"@ {
            Ok(seq![3usize])
        } else if s == "4"@ {
            Ok(seq![4usize])
        } else if s == "5"@ {
            Ok(seq![5usize])
        } else if s == "6"@ {
            Ok(seq![6usize])
        } else {
            Err(
                "Ungültiges Argument: \""@ + s
                    + "\". Verwende 0 (alle Tage), 1–6 (Mo–Sa) oder kein Argument (heute)."@,
            )
        },
    }
}

pub open spec fn str_opt_view(o: Option<&str>) -> Option<Seq<char>> {
    match o {
        Some(s) => Some(s@),
        None => None,
    }
}

pub open spec fn days_result_view(r: Result<Vec<usize>, String>) -> Result<Seq<usize>, Seq<char>> {
    match r {
        Ok(v) => Ok(v@),
        Err(e) => Err(e@),
    }
}

/// Calls chrono's `Local::now().weekday().number_from_monday()`: today's ISO
/// weekday number in the machine's time zone, which chrono documents as
/// Monday = 1 .. Sunday = 7. Which day it is depends on the clock.
#[verifier::external_body]
fn today_number_from_monday() -> (r: u32)
    ensures
        1 <= r <= 7,
{
    chrono::Local::now().weekday().number_from_monday()
}

/// The days that `mensa <arg>` shows when today is `weekday` (Monday = 1).
pub fn parse_mensa_arg_on(arg: Option<&str>, weekday: u32) -> (r: Result<Vec<usize>, String>)
    requires
        1 <= weekday <= 7,
    ensures
        days_result_view(r) == mensa_days_spec(str_opt_view(arg), weekday),
{
    let today: usize = if weekday == 7 {
        1
    } else {
        weekday as usize
    };
    match arg {
        None => {
            let v = vec![today];
            assert(v@ =~= seq![today]);
            Ok(v)
        },
        Some(s) => {
            let o = owned(s);
            if s.is_empty() {
                let v = vec![today];
                assert(v@ =~= seq![today]);
                Ok(v)
            } else if o == owned("0") {
                let v = vec![1usize, 2, 3, 4, 5, 6];
                assert(v@ =~= seq![1usize, 2, 3, 4, 5, 6]);
                Ok(v)
            } else if o == owned("1") {
                let v = vec![1usize];
                assert(v@ =~= seq![1usize]);
                Ok(v)
            } else if o == owned("2") {
                let v = vec![2usize];
                assert(v@ =~= seq![2usize]);
                Ok(v)
            } else if o == owned("3") {
                let v = vec![3usize];
                assert(v@ =~= seq![3usize]);
                Ok(v)
            } else if o == owned("4") {
                let v = vec![4usize];
                assert(v@ =~= seq![4usize]);
                Ok(v)
            } else if o == owned("5") {
                let v = vec![5usize];
                assert(v@ =~= seq![5usize]);
                Ok(v)
            } else if o == owned("6") {
                let v = vec![6usize];
                assert(v@ =~= seq![6usize]);
                Ok(v)
            } else {
                Err(
                    cat3(
                        "Ungültiges Argument: \"",
                        s,
                        "\". Verwende 0 (alle Tage), 1–6 (Mo–Sa) oder kein Argument (heute).",
                    ),
                )
            }
        },
    }
}

/// The days that `mensa <arg>` shows: no argument (or an empty one) means
/// today (Sunday shows Monday), `0` the whole week Monday..Saturday, `1`..`6`
/// a single day; anything else is refused with an explanation.
pub fn parse_mensa_arg(arg: Option<&str>) -> (r: Result<Vec<usize>, String>)
    ensures
        exists|weekday: u32|
            1 <= weekday <= 7 && days_result_view(r) == mensa_days_spec(str_opt_view(arg), weekday),
{
    let weekday = today_number_from_monday();
    parse_mensa_arg_on(arg, weekday)
}

/// The days that the message `body` (`mensa [<day>]`) asks for, or the reply
/// that refuses its argument.
pub fn mensa_days(body: &str) -> (r: Result<Vec<usize>, String>)
    ensures
        exists|weekday: u32|
            1 <= weekday <= 7 && days_result_view(r) == mensa_days_spec(command_arg(body@), weekday),
{
    let arg = command_arg_exec(body);
    match arg {
        None => parse_mensa_arg(None),
        Some(a) => parse_mensa_arg(Some(a.as_str())),
    }
}

/// The reply to `mensa` for the given days, from the menu page as fetched
/// (or the error that fetching it gave).
pub fn handle_mensa_page(days: &Vec<usize>, page: Result<String, String>) -> (r: String)
    ensures
        page is Err ==> r@ == "Fehler beim Laden des Mensaplans. Bitte später versuchen."@,
        page matches Ok(html) ==> (parse_html_meals_spec(html@) matches Ok(m) ==> r@
            == format_meals_spec(m, days@)),
        page matches Ok(html) ==> (parse_html_meals_spec(html@) is Err ==> r@
            == "Fehler beim Laden des Mensaplans. Bitte später versuchen."@),
{
    match page {
        Err(_) => owned("Fehler beim Laden des Mensaplans. Bitte später versuchen."),
        Ok(html) => match parse_html_meals(html.as_str()) {
            Ok(meals) => format_meals(&meals, days.as_slice()),
            Err(_) => owned("Fehler beim Laden des Mensaplans. Bitte später versuchen."),
        },
    }
}

} // verus!
