use matrix_bot::access::AccessControl;
use matrix_bot::router::{
    authorize, bot_name_from_username, final_reply, parse_admin_list, parse_incoming, Action,
    CommandKind,
};

#[test]
fn bot_name_is_local_part() {
    assert_eq!(bot_name_from_username("@mensabot:example.com"), "mensabot");
    assert_eq!(bot_name_from_username("@@x"), "x");
    assert_eq!(bot_name_from_username("plain"), "plain");
}

#[test]
fn admin_list_is_trimmed() {
    assert_eq!(
        parse_admin_list(" @a:s , ,@b:s,"),
        vec!["@a:s".to_string(), "@b:s".to_string()]
    );
    assert!(parse_admin_list("").is_empty());
}

#[test]
fn direct_messages_need_no_prefix() {
    let inc = parse_incoming("  Mensa 3 ", "bot", true).unwrap();
    assert_eq!(inc.kind, CommandKind::Mensa);
    assert_eq!(inc.body, "Mensa 3");
    assert!(!inc.rlo);
    assert!(parse_incoming("mensa????", "bot", true).is_none());
    assert!(parse_incoming("hello", "bot", true).is_none());
}

#[test]
fn group_messages_need_prefix() {
    assert!(parse_incoming("help", "bot", false).is_none());
    let inc = parse_incoming("Bot alerts info innerText", "bot", false).unwrap();
    assert_eq!(inc.kind, CommandKind::Alerts);
    assert_eq!(inc.body, "alerts info innerText");
}

#[test]
fn right_to_left_override_is_mirrored() {
    let inc = parse_incoming("\u{202E}help", "bot", true).unwrap();
    assert!(inc.rlo);
    assert_eq!(inc.kind, CommandKind::Help);
    assert_eq!(final_reply(inc.rlo, "x".to_string()), "\u{202E}x");
    assert_eq!(final_reply(false, "x".to_string()), "x");
}

#[test]
fn restricted_commands_need_permission() {
    let ac = AccessControl::new(vec!["@admin:s".to_string()], vec![]);
    let inc = parse_incoming("allow @x:s", "bot", true).unwrap();
    match authorize(inc, &ac, "@stranger:s", true) {
        Action::Deny(m) => assert_eq!(m, "Du bist nicht berechtigt, diesen Befehl zu verwenden."),
        _ => panic!("expected a refusal"),
    }
    let inc = parse_incoming("disallow @x:s", "bot", true).unwrap();
    assert!(matches!(authorize(inc, &ac, "@ADMIN:s", true), Action::Disallow(_)));
    let inc = parse_incoming("help", "bot", true).unwrap();
    assert!(matches!(authorize(inc, &ac, "@stranger:s", true), Action::Help(_, false)));
    let inc = parse_incoming("mensa", "bot", true).unwrap();
    assert!(matches!(authorize(inc, &ac, "@stranger:s", true), Action::Mensa(_)));
}

#[test]
fn restricted_help_and_access_commands_only_in_direct_chats() {
    let ac = AccessControl::new(vec!["@admin:s".to_string()], vec![]);
    let inc = parse_incoming("help", "bot", true).unwrap();
    assert!(matches!(authorize(inc, &ac, "@admin:s", true), Action::Help(_, true)));
    let inc = parse_incoming("bot help", "bot", false).unwrap();
    assert!(matches!(authorize(inc, &ac, "@admin:s", false), Action::Help(_, false)));
    let inc = parse_incoming("bot allow @x:s", "bot", false).unwrap();
    match authorize(inc, &ac, "@admin:s", false) {
        Action::Deny(m) => assert_eq!(m, "Du bist nicht berechtigt, diesen Befehl zu verwenden."),
        _ => panic!("expected a refusal"),
    }
    let inc = parse_incoming("bot disallow @x:s", "bot", false).unwrap();
    assert!(matches!(authorize(inc, &ac, "@admin:s", false), Action::Deny(_)));
    let inc = parse_incoming("bot alerts list", "bot", false).unwrap();
    assert!(matches!(authorize(inc, &ac, "@admin:s", false), Action::Alerts(_)));
    let inc = parse_incoming("bot alerts list", "bot", false).unwrap();
    assert!(matches!(authorize(inc, &ac, "@stranger:s", false), Action::Deny(_)));
    let inc = parse_incoming("allow @x:s", "bot", true).unwrap();
    assert!(matches!(authorize(inc, &ac, "@admin:s", true), Action::Allow(_)));
}
