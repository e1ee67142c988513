use matrix_bot::alerts::commands::{
    create_args, list_reply, parse_alerts_body, resume_at, shell_split, start, Stage, Step,
    StoreReply, StoreRequest,
};
use matrix_bot::alerts::fetcher::{
    after_attempt, extract_value, page_value, value_of_match, FetchStep, FirstMatch,
};
use matrix_bot::alerts::scheduler::{
    check_plan, check_stamp, due_alerts, is_due_at, render_template, timestamp_valid, to_cron6,
    validate_schedule, MAX_UTC_TIMESTAMP, MIN_UTC_TIMESTAMP,
};
use matrix_bot::alerts::{writable_column, Alert};

const HTML: &str = r#"<html><body>
    <span class="price">29,99 €</span>
    <a class="link" href="/product/123">Buy</a>
</body></html>"#;

fn alert(name: &str, room: &str, creator: &str, enabled: bool) -> Alert {
    Alert {
        name: name.to_string(),
        url: "https://ex.com".to_string(),
        css: ".price".to_string(),
        property: "innerText".to_string(),
        schedule: "0 8 * * *".to_string(),
        room_id: room.to_string(),
        creator: creator.to_string(),
        last_value: None,
        last_checked: None,
        enabled,
        created_at: 0,
    }
}

fn reply(step: Step) -> String {
    match step {
        Step::Reply(m) => m,
        Step::Ask(..) => panic!("expected a reply"),
    }
}

#[test]
fn shell_split_basic() {
    assert_eq!(shell_split("a b c"), vec!["a", "b", "c"]);
}

#[test]
fn shell_split_quoted() {
    assert_eq!(
        shell_split(r#"price https://x.de ".product .price" innerText "0 8 * * *""#),
        vec!["price", "https://x.de", ".product .price", "innerText", "0 8 * * *"]
    );
}

#[test]
fn shell_split_single_quotes() {
    assert_eq!(shell_split("a 'hello world' b"), vec!["a", "hello world", "b"]);
}

#[test]
fn shell_split_unquoted_cron() {
    let tokens = shell_split("name https://x.de .price innerText 0 8 * * 1-5");
    assert_eq!(&tokens[4..], &["0", "8", "*", "*", "1-5"]);
    assert_eq!(tokens[4..].join(" "), "0 8 * * 1-5");
}

#[test]
fn shell_split_edge_cases() {
    assert!(shell_split("").is_empty());
    assert!(shell_split(" \t ").is_empty());
    assert_eq!(shell_split("a\"b c\"d"), vec!["ab cd"]);
    assert_eq!(shell_split("'x"), vec!["x"]);
    assert_eq!(shell_split("\"\" a"), vec!["a"]);
    assert_eq!(shell_split("'it\"s' x"), vec!["it\"s", "x"]);
}

#[test]
fn shell_split_on_any_white_space() {
    assert_eq!(shell_split("a\nb"), vec!["a", "b"]);
    assert_eq!(shell_split("a\r\n b\u{a0}c\u{3000}d"), vec!["a", "b", "c", "d"]);
    assert_eq!(shell_split("\"a\nb\" c"), vec!["a\nb", "c"]);
}

#[test]
fn extract_inner_text() {
    assert_eq!(extract_value(HTML, ".price", "innerText").unwrap(), "29,99 €");
}

#[test]
fn extract_attribute() {
    assert_eq!(extract_value(HTML, ".link", "href").unwrap(), "/product/123");
}

#[test]
fn missing_selector_errors() {
    assert!(extract_value(HTML, ".nonexistent", "innerText").is_err());
}

#[test]
fn missing_attribute_errors() {
    assert!(extract_value(HTML, ".price", "href").is_err());
}

#[test]
fn extract_other_properties_and_errors() {
    assert_eq!(extract_value(HTML, ".link", "text").unwrap(), "Buy");
    assert_eq!(extract_value(HTML, ".link", "innerHTML").unwrap(), "Buy");
    assert_eq!(
        extract_value(HTML, ".nonexistent", "innerText").unwrap_err(),
        "No element matches selector \".nonexistent\""
    );
    assert_eq!(
        extract_value(HTML, ".price", "href").unwrap_err(),
        "Attribute \"href\" not found on element"
    );
    assert!(extract_value(HTML, "[[[", "text").unwrap_err().starts_with("Invalid CSS selector \"[[[\": "));
}

#[test]
fn page_value_checks_status() {
    assert_eq!(
        page_value("https://ex.com", 404, "404 Not Found", HTML, ".price", "text").unwrap_err(),
        "HTTP 404 Not Found for https://ex.com"
    );
    assert_eq!(page_value("https://ex.com", 200, "200 OK", HTML, ".price", "text").unwrap(), "29,99 €");
}

#[test]
fn retry_policy() {
    assert!(matches!(after_attempt(1, Err("x".to_string())), FetchStep::Retry));
    assert!(matches!(after_attempt(4, Err("x".to_string())), FetchStep::Retry));
    match after_attempt(5, Err("timeout".to_string())) {
        FetchStep::Finish(Err(e)) => assert_eq!(e, "Fetch failed after 5 attempts: timeout"),
        _ => panic!("expected the fetch to end"),
    }
    match after_attempt(2, Ok("v".to_string())) {
        FetchStep::Finish(Ok(v)) => assert_eq!(v, "v"),
        _ => panic!("expected a value"),
    }
}

#[test]
fn cron6_converts_5field() {
    assert_eq!(to_cron6("0 8 * * 1-5"), "0 0 8 * * 1-5");
}

#[test]
fn cron6_leaves_6field_alone() {
    assert_eq!(to_cron6("0 0 8 * * 1-5"), "0 0 8 * * 1-5");
}

#[test]
fn cron6_counts_words_across_white_space() {
    assert_eq!(to_cron6("  0  8 *\t* 1-5 "), "0   0  8 *\t* 1-5 ");
    assert_eq!(to_cron6(&to_cron6("*/5 * * * *")), "0 */5 * * * *");
}

#[test]
fn validate_valid_schedule() {
    assert!(validate_schedule("0 8 * * *").is_ok());
    assert!(validate_schedule("*/5 * * * *").is_ok());
}

#[test]
fn validate_invalid_schedule() {
    assert!(validate_schedule("not a cron").is_err());
    assert!(validate_schedule("not a cron").unwrap_err().starts_with("Ungültiger Cron-Ausdruck: "));
}

#[test]
fn render_template_substitutes_all() {
    let tmpl = "Alert {name} changed\n\nOld: {old}\nNew: {new}";
    let result = render_template(tmpl, "price", "https://ex.com", "10€", "12€");
    assert!(result.contains("price"));
    assert!(result.contains("10€"));
    assert!(result.contains("12€"));
}

#[test]
fn render_template_exact() {
    assert_eq!(
        render_template("{name}@{url}: {old} -> {new} {new}", "p", "u", "1", "2"),
        "p@u: 1 -> 2 2"
    );
    assert_eq!(render_template("no placeholders", "p", "u", "1", "2"), "no placeholders");
}

fn stored_value(store: &Option<StoreRequest>) -> Option<(String, String, i64)> {
    match store {
        Some(StoreRequest::UpdateLastValue(n, v, t)) => Some((n.clone(), v.clone(), *t)),
        _ => None,
    }
}

#[test]
fn check_plan_outcomes() {
    let now: i64 = 1704067200;
    let mut a = alert("price", "!r", "@u", true);
    let p = check_plan(&a, Ok("10".to_string()), "{old}->{new}", now);
    assert_eq!(p.notify, None);
    assert_eq!(stored_value(&p.store), Some(("price".to_string(), "10".to_string(), now)));
    a.last_value = Some("10".to_string());
    let p = check_plan(&a, Ok("10".to_string()), "{old}->{new}", now);
    assert_eq!(p.notify, None);
    assert!(p.store.is_none());
    let p = check_plan(&a, Ok("12".to_string()), "{name}: {old}->{new}", now);
    assert_eq!(p.notify, Some("price: 10->12".to_string()));
    let p = check_plan(&a, Ok("12".to_string()), "{url} {css} {property}", now + 5);
    assert_eq!(p.notify, Some("https://ex.com .price innerText".to_string()));
    assert_eq!(stored_value(&p.store), Some(("price".to_string(), "12".to_string(), now + 5)));
    let p = check_plan(&a, Err("boom".to_string()), "{old}->{new}", now);
    assert_eq!(p.notify, Some("⚠️ Alert \"price\" fehlgeschlagen\n\nboom".to_string()));
    assert!(p.store.is_none());
}

#[test]
fn check_stamps_the_alert_first() {
    let a = alert("price", "!r", "@u", true);
    match check_stamp(&a, 1704067200) {
        StoreRequest::UpdateLastChecked(n, t) => {
            assert_eq!(n, "price");
            assert_eq!(t, 1704067200);
        }
        _ => panic!("expected a time stamp"),
    }
}

#[test]
fn timestamp_range_matches_chrono() {
    assert!(chrono::DateTime::from_timestamp(MIN_UTC_TIMESTAMP, 0).is_some());
    assert!(chrono::DateTime::from_timestamp(MIN_UTC_TIMESTAMP - 1, 0).is_none());
    assert!(chrono::DateTime::from_timestamp(MAX_UTC_TIMESTAMP, 0).is_some());
    assert!(chrono::DateTime::from_timestamp(MAX_UTC_TIMESTAMP + 1, 0).is_none());
    assert!(timestamp_valid(MIN_UTC_TIMESTAMP));
    assert!(timestamp_valid(MAX_UTC_TIMESTAMP));
    assert!(!timestamp_valid(MIN_UTC_TIMESTAMP - 1));
    assert!(!timestamp_valid(MAX_UTC_TIMESTAMP + 1));
    assert!(timestamp_valid(0));
}

#[test]
fn last_check_at_the_end_of_time_is_not_due() {
    let mut a = alert("a", "!r", "@u", true);
    a.schedule = "* * * * *".to_string();
    a.last_checked = Some(MAX_UTC_TIMESTAMP);
    assert!(!is_due_at(&a, 1704067200));
    assert!(!is_due_at(&a, MAX_UTC_TIMESTAMP));
    a.last_checked = Some(MAX_UTC_TIMESTAMP - 1);
    assert!(!is_due_at(&a, 1704067200));
}

#[test]
fn due_alerts_follow_schedule() {
    // 2024-01-01 00:00:00 UTC
    let midnight: i64 = 1704067200;
    let mut every_minute = alert("a", "!r", "@u", true);
    every_minute.schedule = "* * * * *".to_string();
    every_minute.last_checked = Some(midnight);
    let mut daily_eight = alert("b", "!r", "@u", true);
    daily_eight.schedule = "0 8 * * *".to_string();
    daily_eight.last_checked = Some(midnight);
    let mut broken = alert("c", "!r", "@u", true);
    broken.schedule = "nonsense".to_string();
    let now = midnight + 120;
    assert!(is_due_at(&every_minute, now));
    assert!(!is_due_at(&daily_eight, now));
    assert!(is_due_at(&daily_eight, midnight + 8 * 3600));
    assert!(!is_due_at(&broken, now));
    let due = due_alerts(&vec![every_minute, daily_eight, broken], now);
    assert_eq!(due.len(), 1);
    assert_eq!(due[0].name, "a");
}

#[test]
fn never_checked_alert_looks_back_one_day() {
    let mut a = alert("a", "!r", "@u", true);
    a.schedule = "0 8 * * *".to_string();
    // 2024-01-01 12:00 UTC: 08:00 the same day is within the last day.
    assert!(is_due_at(&a, 1704067200 + 12 * 3600));
}

#[test]
fn writable_columns() {
    assert_eq!(writable_column("url"), Some("url".to_string()));
    assert_eq!(writable_column("room_id"), Some("room_id".to_string()));
    assert_eq!(writable_column("name"), None);
    assert_eq!(writable_column("enabled; DROP TABLE alerts"), None);
}

#[test]
fn alerts_body_parsing() {
    assert_eq!(parse_alerts_body("alerts"), ("list".to_string(), String::new()));
    assert_eq!(parse_alerts_body("alerts INFO  My Alert "), ("info".to_string(), "My Alert".to_string()));
    assert_eq!(parse_alerts_body("alerts create"), ("create".to_string(), String::new()));
}

#[test]
fn list_flow() {
    match start("alerts", "@me:s") {
        Step::Ask(stage, StoreRequest::LoadByCreator(c)) => {
            assert_eq!(c, "@me:s");
            let alerts = vec![alert("price", "!room", "@me:s", true), alert("x", "!other", "@me:s", false)];
            let text = reply(resume_at(stage, StoreReply::Alerts(Ok(alerts)), "@me:s", "!room", "", 0));
            assert_eq!(
                text,
                format!(
                    "Deine Alerts (2):\n\n  ✅ {:<20} !room [hier]\n  ⏸ {:<20} !other\n\n[hier] = dieser Raum  [du] = du",
                    "price", "x"
                )
            );
        }
        _ => panic!("expected a load"),
    }
    assert!(matches!(start("alerts list-all", "@me:s"), Step::Ask(Stage::Listing(true), StoreRequest::LoadAll)));
    assert_eq!(list_reply(Ok(vec![]), "@me:s", "!r", true), "Keine Alerts vorhanden.");
    assert_eq!(list_reply(Ok(vec![]), "@me:s", "!r", false), "Du hast keine Alerts.");
    assert_eq!(list_reply(Err("db".to_string()), "@me:s", "!r", false), "Fehler beim Laden der Alerts: db");
    let all = list_reply(Ok(vec![alert("a", "!r", "@me:s", true)]), "@me:s", "!r", true);
    assert_eq!(
        all,
        format!("Alle Alerts (1):\n\n  ✅ {:<20} {:<30} {}{}{}\n\n[hier] = dieser Raum  [du] = du", "a", "!r", "@me:s", " [du]", " [hier]")
    );
}

#[test]
fn info_flow() {
    assert_eq!(reply(start("alerts info", "@me:s")), "Verwendung: alerts info <name>");
    match start("alerts info price", "@me:s") {
        Step::Ask(stage, StoreRequest::Get(n)) => {
            assert_eq!(n, "price");
            let mut a = alert("price", "!r", "@me:s", true);
            a.last_checked = Some(1704067200);
            a.last_value = Some("29,99 €".to_string());
            let text = reply(resume_at(stage, StoreReply::Found(Ok(Some(a))), "@me:s", "!r", "", 0));
            assert!(text.starts_with("Alert: price\nStatus:       aktiv\nURL:          https://ex.com\n"));
            assert!(text.ends_with("Letzter Wert: 29,99 €\nLetzte Prüfung: 2024-01-01 00:00 UTC"));
        }
        _ => panic!("expected a lookup"),
    }
    match start("alerts info gone", "@me:s") {
        Step::Ask(stage, _) => assert_eq!(
            reply(resume_at(stage, StoreReply::Found(Ok(None)), "@me:s", "!r", "", 0)),
            "Kein Alert mit dem Namen \"gone\" gefunden."
        ),
        _ => panic!("expected a lookup"),
    }
}

#[test]
fn create_flow() {
    assert!(reply(start("alerts create a b", "@me:s")).starts_with("Verwendung: alerts create"));
    assert!(reply(start("alerts create p https://x.de .c text nonsense", "@me:s")).starts_with("Ungültiger Cron-Ausdruck: "));
    assert_eq!(reply(start("alerts create p nourl .c text 0 8 * * *", "@me:s")), "Ungültige URL: \"nourl\"");
    let stage = match start("alerts create preis https://shop.de \".price x\" innerText 0 8 * * 1-5", "@me:s") {
        Step::Ask(stage, StoreRequest::Get(n)) => {
            assert_eq!(n, "preis");
            stage
        }
        _ => panic!("expected a lookup"),
    };
    let stage = match resume_at(stage, StoreReply::Found(Ok(None)), "@me:s", "!r", "", 0) {
        Step::Ask(stage, StoreRequest::Fetch(url, css, prop)) => {
            assert_eq!((url.as_str(), css.as_str(), prop.as_str()), ("https://shop.de", ".price x", "innerText"));
            stage
        }
        _ => panic!("expected a fetch"),
    };
    let stage = match resume_at(stage, StoreReply::Fetched(Ok("9 €".to_string())), "@me:s", "!r", "", 77) {
        Step::Ask(stage, StoreRequest::Insert(a)) => {
            assert_eq!(a.name, "preis");
            assert_eq!(a.schedule, "0 8 * * 1-5");
            assert_eq!(a.room_id, "!r");
            assert_eq!(a.creator, "@me:s");
            assert_eq!(a.last_value, Some("9 €".to_string()));
            assert_eq!(a.last_checked, Some(77));
            assert!(a.enabled);
            stage
        }
        _ => panic!("expected an insert"),
    };
    let text = reply(resume_at(stage, StoreReply::Stored(Ok(())), "@me:s", "!r", "{name} {old}->{new} {css}", 0));
    assert_eq!(text, "✅ Alert \"preis\" erstellt.\n\nAktueller Wert: 9 €\n\npreis –->9 € .price x");
}

#[test]
fn create_refused_when_name_taken_or_fetch_fails() {
    let args = create_args("p https://x.de .c text 0 8 * * *").ok().unwrap();
    let stage = Stage::CreateLookup(args);
    let existing = alert("p", "!r", "@me:s", true);
    assert_eq!(
        reply(resume_at(stage, StoreReply::Found(Ok(Some(existing))), "@me:s", "!r", "", 0)),
        "Ein Alert mit dem Namen \"p\" existiert bereits."
    );
    let args = create_args("p https://x.de .c text 0 8 * * *").ok().unwrap();
    assert_eq!(
        reply(resume_at(Stage::CreateFetch(args), StoreReply::Fetched(Err("down".to_string())), "@me:s", "!r", "", 0)),
        "❌ Alert konnte nicht erstellt werden – Abruf fehlgeschlagen:\ndown"
    );
}

#[test]
fn update_flow() {
    assert!(reply(start("alerts update p", "@me:s")).starts_with("Verwendung: alerts update"));
    let found = || StoreReply::Found(Ok(Some(alert("p", "!r", "@me:s", true))));
    let lookup = |cmd: &str| match start(cmd, "@me:s") {
        Step::Ask(stage, StoreRequest::Get(_)) => stage,
        _ => panic!("expected a lookup"),
    };
    match resume_at(lookup("alerts update p room"), found(), "@me:s", "!here", "", 0) {
        Step::Ask(stage, StoreRequest::UpdateField(n, col, v)) => {
            assert_eq!((n.as_str(), col.as_str(), v.as_str()), ("p", "room_id", "!here"));
            assert_eq!(
                reply(resume_at(stage, StoreReply::Changed(Ok(true)), "@me:s", "!here", "", 0)),
                "✅ Raum für \"p\" aktualisiert."
            );
        }
        _ => panic!("expected an update"),
    }
    match resume_at(lookup("alerts update p schedule */5 * * * *"), found(), "@me:s", "!r", "", 0) {
        Step::Ask(_, StoreRequest::UpdateField(_, col, v)) => {
            assert_eq!((col.as_str(), v.as_str()), ("schedule", "*/5 * * * *"));
        }
        _ => panic!("expected an update"),
    }
    match resume_at(lookup("alerts update p name q"), found(), "@me:s", "!r", "", 0) {
        Step::Ask(stage, StoreRequest::Rename(o, n)) => {
            assert_eq!((o.as_str(), n.as_str()), ("p", "q"));
            assert_eq!(
                reply(resume_at(stage, StoreReply::Changed(Ok(true)), "@me:s", "!r", "", 0)),
                "✅ Alert umbenannt in \"q\"."
            );
        }
        _ => panic!("expected a rename"),
    }
    assert_eq!(
        reply(resume_at(lookup("alerts update p color red"), found(), "@me:s", "!r", "", 0)),
        "Unbekanntes Feld \"color\". Erlaubt: url, css, property, schedule, room, name"
    );
    assert_eq!(
        reply(resume_at(lookup("alerts update p css"), found(), "@me:s", "!r", "", 0)),
        "Verwendung: alerts update <name> css <wert>"
    );
    assert_eq!(
        reply(resume_at(lookup("alerts update p css .x"), StoreReply::Found(Ok(None)), "@me:s", "!r", "", 0)),
        "Kein Alert \"p\" gefunden."
    );
}

#[test]
fn remove_enable_disable_cleanup_flows() {
    let step = |cmd: &str, r: StoreReply| match start(cmd, "@me:s") {
        Step::Ask(stage, _) => reply(resume_at(stage, r, "@me:s", "!r", "", 0)),
        Step::Reply(m) => m,
    };
    assert_eq!(step("alerts remove", StoreReply::Changed(Ok(true))), "Verwendung: alerts remove <name>");
    assert_eq!(step("alerts remove p", StoreReply::Changed(Ok(true))), "✅ Alert \"p\" gelöscht.");
    assert_eq!(step("alerts remove p", StoreReply::Changed(Ok(false))), "Kein Alert \"p\" gefunden.");
    assert_eq!(step("alerts enable p", StoreReply::Changed(Ok(true))), "✅ Alert \"p\" aktiviert.");
    assert_eq!(step("alerts disable p", StoreReply::Changed(Ok(true))), "✅ Alert \"p\" deaktiviert.");
    assert_eq!(step("alerts disable", StoreReply::Changed(Ok(true))), "Verwendung: alerts disable <name>");
    assert_eq!(step("alerts cleanup", StoreReply::Count(Ok(0))), "Keine deaktivierten Alerts gefunden.");
    assert_eq!(step("alerts cleanup", StoreReply::Count(Ok(12))), "✅ 12 deaktivierte(r) Alert(s) gelöscht.");
    assert_eq!(step("alerts cleanup", StoreReply::Count(Err("x".to_string()))), "Fehler: x");
    assert_eq!(
        step("alerts frobnicate", StoreReply::Count(Ok(0))),
        "Unbekannter alerts-Befehl: \"frobnicate\".\nVerfügbare Befehle: list, list-all, info, create, update, remove, enable, disable, cleanup"
    );
    assert_eq!(step("alerts cleanup", StoreReply::Changed(Ok(true))), "Fehler: unerwartete Antwort");
}

#[test]
fn unrepresentable_last_check_looks_back_one_day() {
    let mut a = alert("a", "!r", "@u", true);
    a.schedule = "* * * * *".to_string();
    a.last_checked = Some(i64::MAX);
    assert!(is_due_at(&a, 1704067200));
}

#[test]
fn due_now_uses_the_clock() {
    let mut every_minute = alert("a", "!r", "@u", true);
    every_minute.schedule = "* * * * *".to_string();
    let mut yearly = alert("b", "!r", "@u", true);
    yearly.schedule = "0 0 0 1 1 * 1970".to_string();
    let due = matrix_bot::alerts::scheduler::due_now(&vec![every_minute, yearly]);
    assert_eq!(due.len(), 1);
    assert_eq!(due[0].name, "a");
    assert!(matrix_bot::alerts::scheduler::is_due(&due[0]));
}

#[test]
fn unparsable_schedule_is_never_due() {
    let mut a = alert("a", "!r", "@u", true);
    a.schedule = "not a cron".to_string();
    assert!(validate_schedule("not a cron").is_err());
    assert!(!is_due_at(&a, 1704067200));
    a.last_checked = Some(1704067200 - 3600);
    assert!(!is_due_at(&a, 1704067200));
}

fn first_match(attr: Option<&str>) -> Result<Option<FirstMatch>, String> {
    Ok(Some(FirstMatch {
        inner_html: " <b>5</b> ".to_string(),
        text: "  5 €\n".to_string(),
        attr: attr.map(|s| s.to_string()),
    }))
}

#[test]
fn value_of_a_match() {
    assert_eq!(value_of_match(first_match(None), ".p", "innerHTML"), Ok("<b>5</b>".to_string()));
    assert_eq!(value_of_match(first_match(None), ".p", "innerText"), Ok("5 €".to_string()));
    assert_eq!(value_of_match(first_match(None), ".p", "text"), Ok("5 €".to_string()));
    assert_eq!(value_of_match(first_match(Some(" /x ")), ".p", "href"), Ok("/x".to_string()));
    assert_eq!(
        value_of_match(first_match(None), ".p", "href"),
        Err("Attribute \"href\" not found on element".to_string())
    );
    assert_eq!(
        value_of_match(Ok(None), ".p", "text"),
        Err("No element matches selector \".p\"".to_string())
    );
    assert_eq!(
        value_of_match(Err("bad".to_string()), "##", "text"),
        Err("Invalid CSS selector \"##\": bad".to_string())
    );
}
