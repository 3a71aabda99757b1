use xcolors::Database;

#[test]
fn query_missing_key_absent() {
    let db = Database::new();
    assert_eq!(db.query(&String::from("xterm.foreground")), None);
}

#[test]
fn query_bound_key_present() {
    let mut db = Database::new();
    db.insert("xterm.background", "#202020");
    assert_eq!(
        db.query(&String::from("xterm.background")),
        Some(String::from("#202020"))
    );
}

#[test]
fn later_binding_overrides_earlier() {
    let mut db = Database::new();
    db.insert("xterm.foreground", "#111111");
    db.insert("xterm.foreground", "#222222");
    assert_eq!(
        db.query(&String::from("xterm.foreground")),
        Some(String::from("#222222"))
    );
}

#[test]
fn bindings_of_other_keys_kept() {
    let mut db = Database::new();
    db.insert("a.b", "1");
    db.insert("c.d", "2");
    db.insert("a.b", "3");
    assert_eq!(db.query(&String::from("a.b")), Some(String::from("3")));
    assert_eq!(db.query(&String::from("c.d")), Some(String::from("2")));
    assert_eq!(db.query(&String::from("e.f")), None);
}
