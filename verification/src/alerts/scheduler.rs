//! When an alert is due, what a check of an alert leads to, and the alert
//! notification text.
use chrono::TimeZone;
use std::str::FromStr;
use vstd::prelude::*;
use crate::alerts::commands::{RequestView, StoreRequest};
use crate::alerts::{copy_alert, Alert};
use crate::text::{cat, chars_of, is_white_space, is_white_space_char, owned, replace_all, replace_str};

verus! {

// ---------------------------------------------------------------------------
// Cron expressions
// ---------------------------------------------------------------------------

/// The number of white-space separated words of `s`
/// (`s.split_whitespace().count()`).
pub open spec fn word_count(s: Seq<char>) -> nat
    decreases s.len(),
{
    if s.len() == 0 {
        0
    } else if !is_white_space(s.last()) && (s.len() == 1 || is_white_space(s[s.len() - 2])) {
        word_count(s.drop_last()) + 1
    } else {
        word_count(s.drop_last())
    }
}

/// `to_cron6`: a five-field expression gets a leading seconds field `0`;
/// anything else is kept as it is.
pub open spec fn cron6(expr: Seq<char>) -> Seq<char> {
    if word_count(expr) == 5 {
        "0 "@ + expr
    } else {
        expr
    }
}

/// The number of white-space separated words of `s`.
pub fn count_words(s: &str) -> (n: usize)
    ensures
        n == word_count(s@),
{
    let v = chars_of(s);
    let mut n: usize = 0;
    let mut i: usize = 0;
    assert(v@.take(0) =~= Seq::<char>::empty());
    while i < v.len()
        invariant
            v@ == s@,
            i <= v@.len(),
            n == word_count(v@.take(i as int)),
            n <= i,
        decreases v.len() - i,
    {
        proof {
            let t = v@.take(i + 1);
            assert(t.drop_last() =~= v@.take(i as int));
            assert(t.last() == v@[i as int]);
            if i >= 1 {
                assert(t[t.len() - 2] == v@[i - 1]);
            }
        }
        if !is_white_space_char(v[i]) && (i == 0 || is_white_space_char(v[i - 1])) {
            n = n + 1;
        }
        i = i + 1;
    }
    assert(v@.take(v@.len() as int) =~= v@);
    n
}

/// Converts a standard 5-field cron expression to the 6-field form that the
/// `cron` crate expects (a leading seconds field); other expressions are
/// returned unchanged.
pub fn to_cron6(expr: &str) -> (r: String)
    ensures
        r@ == cron6(expr@),
{
    if count_words(expr) == 5 {
        cat("0 ", expr)
    } else {
        owned(expr)
    }
}

proof fn lemma_word_count_append(a: Seq<char>, b: Seq<char>)
    requires
        a.len() > 0,
        is_white_space(a.last()),
    ensures
        word_count(a + b) == word_count(a) + word_count(b),
    decreases b.len(),
{
    if b.len() == 0 {
        assert(a + b =~= a);
    } else {
        lemma_word_count_append(a, b.drop_last());
        assert((a + b).drop_last() =~= a + b.drop_last());
        assert((a + b).last() == b.last());
        if b.len() == 1 {
            assert((a + b)[(a + b).len() - 2] == a.last());
        } else {
            assert((a + b)[(a + b).len() - 2] == b[b.len() - 2]);
        }
    }
}

/// `to_cron6` turns a five-field expression into a six-field one, leaves
/// every other expression as it is, and so applying it twice changes
/// nothing more than applying it once.
pub proof fn law_cron6(expr: Seq<char>)
    ensures
        word_count(expr) == 5 ==> word_count(cron6(expr)) == 6,
        word_count(expr) != 5 ==> cron6(expr) == expr,
        cron6(cron6(expr)) == cron6(expr),
{
    reveal_strlit("0 ");
    let z = "0 "@;
    assert(z.len() == 2 && z[0] == '0' && z[1] == ' ');
    assert(z.drop_last() =~= seq!['0']);
    assert(seq!['0'].drop_last() =~= Seq::<char>::empty());
    assert(word_count(Seq::<char>::empty()) == 0);
    assert(word_count(seq!['0']) == 1);
    assert(word_count(z) == 1);
    lemma_word_count_append(z, expr);
}

/// What `cron::Schedule::from_str(expr)` says of `expr`: `None` when it
/// parses, the error's text otherwise.
pub uninterp spec fn cron_parse_error(expr: Seq<char>) -> Option<Seq<char>>;

/// Parses `expr` with `cron::Schedule::from_str` and returns the error's
/// `Display` text when it is refused. The result is only named.
#[verifier::external_body]
fn cron_check(expr: &str) -> (r: Option<String>)
    ensures
        match r {
            Some(e) => cron_parse_error(expr@) == Some(e@),
            None => cron_parse_error(expr@) is None,
        },
{
    match cron::Schedule::from_str(expr) {
        Ok(_) => None,
        Err(e) => Some(e.to_string()),
    }
}

/// The verdict of `validate_schedule` on `expr`.
pub open spec fn schedule_error(expr: Seq<char>) -> Option<Seq<char>> {
    match cron_parse_error(cron6(expr)) {
        None => None,
        Some(e) => Some("Ungültiger Cron-Ausdruck: "@ + e),
    }
}

/// Checks a cron expression (five or six fields).
pub fn validate_schedule(expr: &str) -> (r: Result<(), String>)
    ensures
        match r {
            Ok(()) => schedule_error(expr@) is None,
            Err(e) => schedule_error(expr@) == Some(e@),
        },
{
    let expr6 = to_cron6(expr);
    match cron_check(expr6.as_str()) {
        None => Ok(()),
        Some(e) => Err(cat("Ungültiger Cron-Ausdruck: ", e.as_str())),
    }
}

// ---------------------------------------------------------------------------
// Due alerts
// ---------------------------------------------------------------------------

/// The earliest UNIX time (whole seconds) that chrono represents as a
/// `DateTime<Utc>`: January 1 of the year -262143, 00:00:00 (`NaiveDate::MIN`).
pub const MIN_UTC_TIMESTAMP: i64 = -8_334_601_228_800;

/// The latest UNIX time (whole seconds) that chrono represents as a
/// `DateTime<Utc>`: December 31 of the year 262142, 23:59:59 (`NaiveDate::MAX`).
pub const MAX_UTC_TIMESTAMP: i64 = 8_210_266_876_799;

/// Whether chrono can represent the UNIX time `ts` as a `DateTime<Utc>`
/// (`Utc.timestamp_opt(ts, 0)` is `Single` exactly for these).
pub open spec fn utc_timestamp_valid(ts: int) -> bool {
    MIN_UTC_TIMESTAMP <= ts && ts <= MAX_UTC_TIMESTAMP
}

/// Whether `ts` is a representable time.
pub fn timestamp_valid(ts: i64) -> (r: bool)
    ensures
        r == utc_timestamp_valid(ts as int),
{
    MIN_UTC_TIMESTAMP <= ts && ts <= MAX_UTC_TIMESTAMP
}

/// The first time, in UNIX seconds, strictly after `after` at which the
/// cron expression `expr` fires; `None` when the expression does not parse
/// or no such time exists.
pub uninterp spec fn cron_next_after(expr: Seq<char>, after: i64) -> Option<i64>;

/// Parses `expr` with `cron::Schedule::from_str`, converts `after` with
/// `Utc.timestamp_opt`, and returns the UNIX time of the first element of
/// `Schedule::after`. The result is only named. `Schedule::after` starts its
/// search one second after `after` with chrono's panicking `+`, so `after`
/// must leave room for that second within chrono's range.
#[verifier::external_body]
fn next_fire_after(expr: &str, after: i64) -> (r: Option<i64>)
    requires
        MIN_UTC_TIMESTAMP <= after < MAX_UTC_TIMESTAMP,
    ensures
        r == cron_next_after(expr@, after),
{
    let schedule = match cron::Schedule::from_str(expr) {
        Ok(s) => s,
        Err(_) => return None,
    };
    let start = match chrono::Utc.timestamp_opt(after, 0).single() {
        Some(t) => t,
        None => return None,
    };
    match schedule.after(&start).next() {
        Some(t) => Some(t.timestamp()),
        None => None,
    }
}

/// The time now, in whole UNIX seconds (`chrono::Utc::now().timestamp()`).
/// It depends on the clock; being the timestamp of a `DateTime<Utc>`, it lies
/// within chrono's range.
#[verifier::external_body]
pub(crate) fn now_timestamp() -> (r: i64)
    ensures
        utc_timestamp_valid(r as int),
{
    chrono::Utc::now().timestamp()
}

/// The time after which the next run of `alert` is looked for: its last
/// check, or one day before `now` when it was never checked (or its last
/// check is not a representable time).
pub open spec fn due_after(alert: Alert, now: i64) -> int {
    match alert.last_checked {
        Some(ts) => if utc_timestamp_valid(ts as int) {
            ts as int
        } else {
            now - 86400
        },
        None => now - 86400,
    }
}

/// `alert` is due at `now`: its schedule fires after its last check, and
/// not later than `now`. A schedule that cron does not parse is never due,
/// nor is an alert whose search would start beyond the last time chrono
/// represents.
pub open spec fn is_due_spec(alert: Alert, now: i64) -> bool {
    let after = due_after(alert, now);
    if cron_parse_error(cron6(alert.schedule@)) is Some {
        false
    } else if !(MIN_UTC_TIMESTAMP <= after && after < MAX_UTC_TIMESTAMP) {
        false
    } else {
        match cron_next_after(cron6(alert.schedule@), after as i64) {
            Some(next) => next <= now,
            None => false,
        }
    }
}

/// An alert whose schedule `validate_schedule` refuses is never due.
pub proof fn law_refused_schedule_never_due(alert: Alert, now: i64)
    requires
        schedule_error(alert.schedule@) is Some,
    ensures
        !is_due_spec(alert, now),
{
}

/// Whether `alert` is due at the time `now`.
pub fn is_due_at(alert: &Alert, now: i64) -> (r: bool)
    requires
        utc_timestamp_valid(now as int),
    ensures
        r == is_due_spec(*alert, now),
{
    let expr6 = to_cron6(alert.schedule.as_str());
    if cron_check(expr6.as_str()).is_some() {
        return false;
    }
    let after: i64 = match alert.last_checked {
        Some(ts) => if timestamp_valid(ts) {
            ts
        } else {
            now - 86400
        },
        None => now - 86400,
    };
    if !(MIN_UTC_TIMESTAMP <= after && after < MAX_UTC_TIMESTAMP) {
        return false;
    }
    match next_fire_after(expr6.as_str(), after) {
        Some(next) => next <= now,
        None => false,
    }
}

/// Whether `alert` is due now.
pub fn is_due(alert: &Alert) -> (r: bool)
    ensures
        exists|now: i64| utc_timestamp_valid(now as int) && r == is_due_spec(*alert, now),
{
    let now = now_timestamp();
    is_due_at(alert, now)
}

/// The alerts of `alerts` that are due at `now`, in order.
pub open spec fn due_filter(alerts: Seq<Alert>, now: i64) -> Seq<Alert>
    decreases alerts.len(),
{
    if alerts.len() == 0 {
        alerts
    } else if is_due_spec(alerts.last(), now) {
        due_filter(alerts.drop_last(), now).push(alerts.last())
    } else {
        due_filter(alerts.drop_last(), now)
    }
}

/// A scheduler round keeps exactly the alerts that are due, each one judged
/// on its own: the result is the input filtered by "due at `now`", in input
/// order, so every due alert is in it, whatever alerts come before or after
/// it, and every alert in it is one of the input's and is due.
pub proof fn law_due_alerts_are_exactly_the_due_ones(alerts: Seq<Alert>, now: i64)
    ensures
        due_filter(alerts, now) == alerts.filter(|a: Alert| is_due_spec(a, now)),
        forall|i: int|
            0 <= i < alerts.len() && is_due_spec(alerts[i], now) ==> #[trigger] due_filter(
                alerts,
                now,
            ).contains(alerts[i]),
        forall|a: Alert|
            #[trigger] due_filter(alerts, now).contains(a) ==> alerts.contains(a) && is_due_spec(
                a,
                now,
            ),
    decreases alerts.len(),
{
    let pred = |a: Alert| is_due_spec(a, now);
    reveal(Seq::filter);
    if alerts.len() > 0 {
        law_due_alerts_are_exactly_the_due_ones(alerts.drop_last(), now);
    }
    assert(due_filter(alerts, now) == alerts.filter(pred));
    assert forall|i: int| 0 <= i < alerts.len() && is_due_spec(alerts[i], now) implies #[trigger] due_filter(
        alerts,
        now,
    ).contains(alerts[i]) by {
        alerts.lemma_filter_contains(pred, i);
    }
    assert forall|a: Alert| #[trigger] due_filter(alerts, now).contains(a) implies alerts.contains(a)
        && is_due_spec(a, now) by {
        alerts.lemma_filter_contains_rev(pred, a);
        let j = choose|j: int| 0 <= j < alerts.filter(pred).len() && alerts.filter(pred)[j] == a;
        alerts.lemma_filter_pred(pred, j);
    }
}

/// The alerts that a scheduler round at `now` checks.
pub fn due_alerts(alerts: &Vec<Alert>, now: i64) -> (r: Vec<Alert>)
    requires
        utc_timestamp_valid(now as int),
    ensures
        r@ == due_filter(alerts@, now),
        r@ == alerts@.filter(|a: Alert| is_due_spec(a, now)),
{
    proof {
        law_due_alerts_are_exactly_the_due_ones(alerts@, now);
    }
    let mut due: Vec<Alert> = Vec::new();
    let mut i: usize = 0;
    while i < alerts.len()
        invariant
            utc_timestamp_valid(now as int),
            i <= alerts@.len(),
            due@ == due_filter(alerts@.take(i as int), now),
        decreases alerts.len() - i,
    {
        proof {
            let t = alerts@.take(i + 1);
            assert(t.drop_last() =~= alerts@.take(i as int));
            assert(t.last() == alerts@[i as int]);
        }
        if is_due_at(&alerts[i], now) {
            due.push(copy_alert(&alerts[i]));
        }
        i = i + 1;
    }
    assert(alerts@.take(alerts@.len() as int) =~= alerts@);
    due
}

/// The alerts that a scheduler round checks now.
pub fn due_now(alerts: &Vec<Alert>) -> (r: Vec<Alert>)
    ensures
        exists|now: i64| utc_timestamp_valid(now as int) && r@ == due_filter(alerts@, now) && r@
            == alerts@.filter(|a: Alert| is_due_spec(a, now)),
{
    let now = now_timestamp();
    due_alerts(alerts, now)
}

// ---------------------------------------------------------------------------
// Checking an alert
// ---------------------------------------------------------------------------

/// The notification text: the placeholders `{name}`, `{url}`, `{old}` and
/// `{new}` of `template`, in that order, replaced by the given values.
pub open spec fn render_spec(
    template: Seq<char>,
    name: Seq<char>,
    url: Seq<char>,
    old: Seq<char>,
    new: Seq<char>,
) -> Seq<char> {
    replace_all(
        replace_all(
            replace_all(replace_all(template, "{name}"@, name), "{url}"@, url),
            "{old}"@,
            old,
        ),
        "{new}"@,
        new,
    )
}

/// Fills the placeholders `{name}`, `{url}`, `{old}` and `{new}` of
/// `template`.
pub fn render_template(template: &str, name: &str, url: &str, old: &str, new: &str) -> (r: String)
    ensures
        r@ == render_spec(template@, name@, url@, old@, new@),
{
    proof {
        reveal_strlit("{name}");
        reveal_strlit("{url}");
        reveal_strlit("{old}");
        reveal_strlit("{new}");
    }
    let a = replace_str(template, "{name}", name);
    let b = replace_str(a.as_str(), "{url}", url);
    let c = replace_str(b.as_str(), "{old}", old);
    replace_str(c.as_str(), "{new}", new)
}

/// The change notification for `alert`: the template's `{name}`, `{url}`,
/// `{old}`, `{new}`, `{css}` and `{property}`, in that order, replaced by the
/// alert's values and the old and new value.
pub open spec fn notification_spec(template: Seq<char>, alert: Alert, old: Seq<char>, new: Seq<char>) -> Seq<char> {
    replace_all(
        replace_all(render_spec(template, alert.name@, alert.url@, old, new), "{css}"@, alert.css@),
        "{property}"@,
        alert.property@,
    )
}

/// Fills every placeholder of the notification template for `alert`.
pub fn render_notification(template: &str, alert: &Alert, old: &str, new: &str) -> (r: String)
    ensures
        r@ == notification_spec(template@, *alert, old@, new@),
{
    proof {
        reveal_strlit("{css}");
        reveal_strlit("{property}");
    }
    let base = render_template(template, alert.name.as_str(), alert.url.as_str(), old, new);
    let with_css = replace_str(base.as_str(), "{css}", alert.css.as_str());
    replace_str(with_css.as_str(), "{property}", alert.property.as_str())
}

/// `s` holds no `{`.
pub open spec fn has_no_brace(s: Seq<char>) -> bool {
    forall|i: int| 0 <= i < s.len() ==> s[i] != '{'
}

proof fn lemma_replace_absent(s: Seq<char>, from: Seq<char>, to: Seq<char>)
    requires
        has_no_brace(s),
        from.len() > 0,
        from[0] == '{',
    ensures
        replace_all(s, from, to) == s,
    decreases s.len(),
{
    if s.len() > 0 {
        let t = s.drop_first();
        assert(has_no_brace(t)) by {
            assert forall|i: int| 0 <= i < t.len() implies t[i] != '{' by {
                assert(t[i] == s[i + 1]);
            }
        }
        if s.len() >= from.len() {
            assert(s.take(from.len() as int)[0] == s[0]);
        }
        lemma_replace_absent(t, from, to);
        assert(seq![s[0]] + t =~= s);
    }
}

/// A template without placeholders (no `{` at all) is sent as it is,
/// whatever the alert's name, address and values.
pub proof fn law_render_plain_template(
    template: Seq<char>,
    name: Seq<char>,
    url: Seq<char>,
    old: Seq<char>,
    new: Seq<char>,
)
    requires
        has_no_brace(template),
    ensures
        render_spec(template, name, url, old, new) == template,
{
    reveal_strlit("{name}");
    reveal_strlit("{url}");
    reveal_strlit("{old}");
    reveal_strlit("{new}");
    lemma_replace_absent(template, "{name}"@, name);
    lemma_replace_absent(template, "{url}"@, url);
    lemma_replace_absent(template, "{old}"@, old);
    lemma_replace_absent(template, "{new}"@, new);
}

/// The change notification of a template without placeholders is the
/// template itself.
pub proof fn law_plain_notification(template: Seq<char>, alert: Alert, old: Seq<char>, new: Seq<char>)
    requires
        has_no_brace(template),
    ensures
        notification_spec(template, alert, old, new) == template,
{
    law_render_plain_template(template, alert.name@, alert.url@, old, new);
    reveal_strlit("{css}");
    reveal_strlit("{property}");
    lemma_replace_absent(template, "{css}"@, alert.css@);
    lemma_replace_absent(template, "{property}"@, alert.property@);
}

/// The store request that opens a check of `alert` at the UNIX time `now`:
/// its last check is set to `now` before the fetch starts, so that the
/// scheduler does not start a second check of it while the fetch runs.
pub fn check_stamp(alert: &Alert, now: i64) -> (r: StoreRequest)
    ensures
        r@ == RequestView::UpdateLastChecked(alert.name@, now),
{
    StoreRequest::UpdateLastChecked(alert.name.clone(), now)
}

/// What a check of an alert leads to: a message for the alert's room, and a
/// request that stores the value just read.
pub struct CheckPlan {
    pub notify: Option<String>,
    pub store: Option<StoreRequest>,
}

/// The view of an optional store request.
pub open spec fn request_opt_view(r: Option<StoreRequest>) -> Option<RequestView> {
    match r {
        Some(q) => Some(q@),
        None => None,
    }
}

/// What checking `alert` at the UNIX time `now` leads to, given what fetching
/// its value gave: a failed fetch is reported and nothing is stored; the
/// first value of an alert is stored silently; a changed value is reported
/// with the filled-in template and stored; an unchanged value leads to
/// nothing. A value is stored together with `now` as its time.
pub fn check_plan(alert: &Alert, fetched: Result<String, String>, template: &str, now: i64) -> (p:
    CheckPlan)
    ensures
        fetched matches Err(e) ==> (p.notify matches Some(m) && m@
            == "⚠️ Alert \""@ + alert.name@ + "\" fehlgeschlagen\n\n"@ + e@ && p.store is None),
        fetched matches Ok(v) ==> (alert.last_value is None ==> p.notify is None
            && request_opt_view(p.store) == Some(RequestView::UpdateLastValue(alert.name@, v@, now))),
        fetched matches Ok(v) ==> (alert.last_value matches Some(old) ==> (old@ == v@ ==> p.notify is None
            && p.store is None)),
        fetched matches Ok(v) ==> (alert.last_value matches Some(old) ==> (old@ != v@ ==> (p.notify matches Some(m) && m@ == notification_spec(
            template@,
            *alert,
            old@,
            v@,
        ) && request_opt_view(p.store) == Some(RequestView::UpdateLastValue(alert.name@, v@, now))))),
{
    match fetched {
        Err(e) => {
            let mut m = owned("⚠️ Alert \"");
            m.append(alert.name.as_str());
            m.append("\" fehlgeschlagen\n\n");
            m.append(e.as_str());
            CheckPlan { notify: Some(m), store: None }
        },
        Ok(new_value) => match &alert.last_value {
            None => CheckPlan {
                notify: None,
                store: Some(StoreRequest::UpdateLastValue(alert.name.clone(), new_value, now)),
            },
            Some(old_value) => {
                if new_value != *old_value {
                    let msg = render_notification(
                        template,
                        alert,
                        old_value.as_str(),
                        new_value.as_str(),
                    );
                    CheckPlan {
                        notify: Some(msg),
                        store: Some(StoreRequest::UpdateLastValue(alert.name.clone(), new_value, now)),
                    }
                } else {
                    CheckPlan { notify: None, store: None }
                }
            },
        },
    }
}

} // verus!
