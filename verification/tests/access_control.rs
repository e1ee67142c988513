use matrix_bot::access::{AccessControl, AccessOutcome};

fn make_ac(admins: &[&str], allowed: &[&str]) -> AccessControl {
    AccessControl::new(
        admins.iter().map(|s| s.to_string()).collect(),
        allowed.iter().map(|s| s.to_string()).collect(),
    )
}

#[test]
fn admin_is_allowed() {
    let ac = make_ac(&["@admin:server"], &[]);
    assert!(ac.is_allowed("@admin:server"));
}

#[test]
fn unknown_user_not_allowed() {
    let ac = make_ac(&["@admin:server"], &[]);
    assert!(!ac.is_allowed("@stranger:server"));
}

#[test]
fn added_user_is_allowed() {
    let mut ac = make_ac(&["@admin:server"], &[]);
    ac.add_user("@user:server");
    assert!(ac.is_allowed("@user:server"));
}

#[test]
fn admin_cannot_be_removed() {
    let mut ac = make_ac(&["@admin:server"], &[]);
    let msg = ac.remove_user("@admin:server").reply(Ok(()));
    assert!(msg.contains("Admin"));
    assert!(ac.is_allowed("@admin:server"));
}

#[test]
fn remove_unknown_user_gives_error() {
    let mut ac = make_ac(&["@admin:server"], &[]);
    let msg = ac.remove_user("@nobody:server").reply(Ok(()));
    assert!(msg.contains("nicht in der Erlaubtenliste"));
}

#[test]
fn case_insensitive_check() {
    let ac = make_ac(&["@Admin:Server"], &[]);
    assert!(ac.is_allowed("@admin:server"));
}

#[test]
fn add_user_stores_lower_case_and_asks_to_save() {
    let mut ac = make_ac(&["@admin:server"], &[]);
    let out = ac.add_user("@Friend:Matrix.org");
    assert!(out.needs_save());
    assert_eq!(out.reply(Ok(())), "@Friend:Matrix.org wurde zur Erlaubtenliste hinzugefügt.");
    assert_eq!(ac.allowed_users(), &vec!["@friend:matrix.org".to_string()]);
    assert!(ac.is_allowed("@FRIEND:matrix.org"));
}

#[test]
fn add_known_user_changes_nothing() {
    let mut ac = make_ac(&["@admin:server"], &["@user:server"]);
    let out = ac.add_user("@USER:server");
    assert!(!out.needs_save());
    assert_eq!(out.reply(Ok(())), "@USER:server ist bereits erlaubt.");
    assert_eq!(ac.allowed_users().len(), 1);
}

#[test]
fn add_admin_changes_nothing() {
    let mut ac = make_ac(&["@admin:server"], &[]);
    let out = ac.add_user("@admin:server");
    assert!(matches!(out, AccessOutcome::Unchanged(_)));
    assert!(ac.allowed_users().is_empty());
}

#[test]
fn save_failure_is_reported() {
    let mut ac = make_ac(&[], &[]);
    let out = ac.add_user("@a:b");
    assert_eq!(out.reply(Err("disk full".to_string())), "Fehler beim Speichern: disk full");
}

#[test]
fn remove_user_removes_every_spelling() {
    let mut ac = make_ac(&["@admin:server"], &["@user:server", "@other:server", "@USER:server"]);
    let out = ac.remove_user("@User:Server");
    assert!(out.needs_save());
    assert_eq!(out.reply(Ok(())), "@User:Server wurde aus der Erlaubtenliste entfernt.");
    assert_eq!(ac.allowed_users(), &vec!["@other:server".to_string()]);
    assert!(!ac.is_allowed("@user:server"));
    assert!(ac.is_allowed("@other:server"));
    assert!(ac.is_allowed("@admin:server"));
}

#[test]
fn admin_check() {
    let ac = make_ac(&["@admin:server"], &["@user:server"]);
    assert!(ac.is_admin("@ADMIN:server"));
    assert!(!ac.is_admin("@user:server"));
}

#[test]
fn adding_again_in_other_case_changes_nothing() {
    let mut ac = make_ac(&["@admin:server"], &["@old:server"]);
    assert!(ac.add_user("@Neu:Server").needs_save());
    let before = ac.allowed_users().clone();
    let again = ac.add_user("@NEU:server");
    assert!(!again.needs_save());
    assert_eq!(again.reply(Ok(())), "@NEU:server ist bereits erlaubt.");
    assert_eq!(ac.allowed_users(), &before);
}

#[test]
fn remove_undoes_add() {
    let mut ac = make_ac(&["@admin:server"], &["@old:server"]);
    let before = ac.allowed_users().clone();
    ac.add_user("@New:Server");
    let out = ac.remove_user("@New:Server");
    assert!(out.needs_save());
    assert_eq!(ac.allowed_users(), &before);
    assert!(!ac.is_allowed("@new:server"));
}
