use chrono::{Datelike, Local, Weekday};
use matrix_bot::access::AccessControl;
use matrix_bot::alerts::commands::StoreRequest;
use matrix_bot::commands::{
    disallow_followup, handle_allow, handle_disallow, handle_help, handle_mensa_page, mensa_days,
    parse_mensa_arg, parse_mensa_arg_on,
};

#[test]
fn parse_day_arg_today() {
    let result = parse_mensa_arg(None).unwrap();
    assert_eq!(result.len(), 1);
    let expected = match Local::now().weekday() {
        Weekday::Mon => 1,
        Weekday::Tue => 2,
        Weekday::Wed => 3,
        Weekday::Thu => 4,
        Weekday::Fri => 5,
        Weekday::Sat => 6,
        Weekday::Sun => 1,
    };
    assert_eq!(result[0], expected);
}

#[test]
fn parse_day_arg_all() {
    let result = parse_mensa_arg(Some("0")).unwrap();
    assert_eq!(result, vec![1, 2, 3, 4, 5, 6]);
}

#[test]
fn parse_day_arg_monday() {
    assert_eq!(parse_mensa_arg(Some("1")).unwrap(), vec![1]);
}

#[test]
fn parse_day_arg_saturday() {
    assert_eq!(parse_mensa_arg(Some("6")).unwrap(), vec![6]);
}

#[test]
fn parse_day_arg_invalid() {
    assert!(parse_mensa_arg(Some("7")).is_err());
    assert!(parse_mensa_arg(Some("foo")).is_err());
}

#[test]
fn parse_day_arg_sunday_shows_monday() {
    assert_eq!(parse_mensa_arg_on(None, 7).unwrap(), vec![1]);
    assert_eq!(parse_mensa_arg_on(Some(""), 3).unwrap(), vec![3]);
}

#[test]
fn parse_day_arg_error_text() {
    assert_eq!(
        parse_mensa_arg_on(Some("7"), 1).unwrap_err(),
        "Ungültiges Argument: \"7\". Verwende 0 (alle Tage), 1–6 (Mo–Sa) oder kein Argument (heute)."
    );
}

#[test]
fn mensa_days_reads_argument() {
    assert_eq!(mensa_days("mensa 3").unwrap(), vec![3]);
    assert_eq!(mensa_days("mensa   0  ").unwrap(), vec![1, 2, 3, 4, 5, 6]);
    assert!(mensa_days("mensa x").is_err());
    assert_eq!(mensa_days("mensa").unwrap().len(), 1);
}

#[test]
fn help_no_arg_public() {
    let result = handle_help("help", false);
    assert!(result.contains("mensa"));
    assert!(result.contains("help"));
    assert!(!result.contains("allow"));
}

#[test]
fn help_no_arg_restricted_shows_extra_cmds() {
    let result = handle_help("help", true);
    assert!(result.contains("mensa"));
    assert!(result.contains("allow"));
    assert!(result.contains("disallow"));
}

#[test]
fn help_mensa_shows_days() {
    let result = handle_help("help mensa", false);
    assert!(result.contains("Montag"));
    assert!(result.contains("Samstag"));
    assert!(result.contains("mensa 0"));
}

#[test]
fn help_unknown_command() {
    let result = handle_help("help foobar", false);
    assert!(result.contains("foobar"));
}

#[test]
fn help_exact_texts() {
    assert_eq!(
        handle_help("help", false),
        "Verfügbare Befehle:\n\nmensa <tag>         – Zeigt den Speiseplan der Mensa Furtwangen\nhelp <befehl>       – Zeigt Hilfe zu einem Befehl\n\nTipp: `help <befehl>` für mehr Details"
    );
    assert_eq!(
        handle_help("help foobar", true),
        "Unbekannter Befehl: \"foobar\". Verfügbare Befehle: mensa, allow, disallow"
    );
    assert_eq!(handle_help("help   ", false), handle_help("help", false));
    assert!(handle_help("help allow", false).starts_with("allow <@nutzer:server>"));
    assert!(handle_help("help disallow", true).contains("Admins können nicht entfernt werden."));
}

#[test]
fn allow_and_disallow_commands() {
    let mut ac = AccessControl::new(vec!["@admin:server".to_string()], vec![]);
    assert_eq!(handle_allow("allow", &mut ac).reply(Ok(())), "Verwendung: allow @nutzer:server");
    let out = handle_allow("allow  @Bob:server ", &mut ac);
    assert!(out.needs_save());
    assert!(ac.is_allowed("@bob:server"));
    assert_eq!(handle_disallow("disallow", &mut ac).reply(Ok(())), "Verwendung: disallow @nutzer:server");
    assert_eq!(
        handle_disallow("disallow @admin:server", &mut ac).reply(Ok(())),
        "@admin:server ist ein Admin und kann nicht entfernt werden."
    );
    let out = handle_disallow("disallow @bob:server", &mut ac);
    assert_eq!(out.reply(Ok(())), "@bob:server wurde aus der Erlaubtenliste entfernt.");
    assert!(!ac.is_allowed("@bob:server"));
}

#[test]
fn mensa_page_errors() {
    assert_eq!(
        handle_mensa_page(&vec![1], Err("timeout".to_string())),
        "Fehler beim Laden des Mensaplans. Bitte später versuchen."
    );
}

#[test]
fn mensa_page_reads_meals() {
    let html = r#"<html><body><div id="tab-tue"><div class="col-span-1 bg-lighter-cyan py-20px px-15px flex flex-col"><small class="extra-text mb-15px">Essen 1 GemüsebologneSojaschnetzel Preise + Kennzeichnungen
        Studierende, Schüler 2.50 € Beschäftigte 3.50 € Gäste 4.50 €</small></div></div></body></html>"#;
    let reply = handle_mensa_page(&vec![2], Ok(html.to_string()));
    assert_eq!(
        reply,
        "Mensa Furtwangen\n\nDienstag\n    gemüsebologne sojaschnetzel\n    Preis Studierende: 2.50 €\n\n"
    );
}

#[test]
fn disallowed_user_has_alerts_disabled() {
    let mut ac = AccessControl::new(vec!["@admin:s".to_string()], vec!["@bob:s".to_string()]);
    let body = "disallow @bob:s";
    let outcome = handle_disallow(body, &mut ac);
    match disallow_followup(body, &outcome) {
        Some(StoreRequest::DisableByCreator(u)) => assert_eq!(u, "@bob:s"),
        _ => panic!("expected the user's alerts to be disabled"),
    }
    // Nobody removed: an unknown user, an admin, or no argument.
    let outcome = handle_disallow("disallow @carol:s", &mut ac);
    assert!(disallow_followup("disallow @carol:s", &outcome).is_none());
    let outcome = handle_disallow("disallow @admin:s", &mut ac);
    assert!(disallow_followup("disallow @admin:s", &outcome).is_none());
    let outcome = handle_disallow("disallow", &mut ac);
    assert!(disallow_followup("disallow", &outcome).is_none());
}
