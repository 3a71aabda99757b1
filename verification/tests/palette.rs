use xcolors::Database;
use xcolors::XColors;
use xcolors::fetch_palette;
use xcolors::palette_keys;

#[test]
fn no_database_absent_result() {
    // A session without a resource database yields no palette at all.
    assert!(fetch_palette(None, "xterm").is_none());
}

#[test]
fn empty_database_all_absent() {
    let db = Database::new();
    let r = fetch_palette(Some(&db), "xterm").expect("a database must yield a record");
    assert_eq!(r.fg, None);
    assert_eq!(r.bg, None);
    assert_eq!(r.cursor, None);
    for i in 0..16 {
        assert_eq!(r.colors[i], None);
    }
}

#[test]
fn no_matching_keys_all_absent() {
    // A present database with no keys under the prefix still yields a
    // present record, with every field absent.
    let mut db = Database::new();
    db.insert("other.foreground", "#123456");
    let r = fetch_palette(Some(&db), "xterm");
    assert!(r.is_some());
    let r = r.unwrap();
    assert_eq!(r.fg, None);
    assert_eq!(r.bg, None);
    assert_eq!(r.cursor, None);
    for i in 0..16 {
        assert_eq!(r.colors[i], None);
    }
}

#[test]
fn only_foreground_present() {
    let mut db = Database::new();
    db.insert("xterm.foreground", "#ffcc00");
    let r = fetch_palette(Some(&db), "xterm").unwrap();
    assert_eq!(r.fg, Some(String::from("#ffcc00")));
    assert_eq!(r.bg, None);
    assert_eq!(r.cursor, None);
    for i in 0..16 {
        assert_eq!(r.colors[i], None);
    }
}

#[test]
fn scalar_keys_fill_their_fields() {
    let mut db = Database::new();
    db.insert("xterm.foreground", "#eeeeee");
    db.insert("xterm.background", "#111111");
    db.insert("xterm.cursorColor", "#ff0000");
    let r = fetch_palette(Some(&db), "xterm").unwrap();
    assert_eq!(r.fg, Some(String::from("#eeeeee")));
    assert_eq!(r.bg, Some(String::from("#111111")));
    assert_eq!(r.cursor, Some(String::from("#ff0000")));
}

#[test]
fn xterm_color_round_trip() {
    // xterm.color0 = "#000000" through xterm.color15 = "#ffffff": every
    // value comes back in the slot whose index matches the key suffix.
    let mut db = Database::new();
    for i in 0..16usize {
        let key = format!("xterm.color{}", i);
        let value = format!("#{:06x}", i * 0x111111);
        db.insert(&key, &value);
    }
    let r = fetch_palette(Some(&db), "xterm").unwrap();
    for i in 0..16usize {
        assert_eq!(r.colors[i], Some(format!("#{:06x}", i * 0x111111)));
    }
    assert_eq!(r.colors[0], Some(String::from("#000000")));
    assert_eq!(r.colors[15], Some(String::from("#ffffff")));
}

#[test]
fn fetch_twice_structurally_equal() {
    let mut db = Database::new();
    db.insert("xterm.foreground", "#abcdef");
    db.insert("xterm.color7", "#777777");
    let r1 = fetch_palette(Some(&db), "xterm");
    let r2 = fetch_palette(Some(&db), "xterm");
    assert_eq!(r1, r2);
}

#[test]
fn unrelated_prefix_isolated() {
    // Keys under "urxvt" never show through a fetch for "xterm".
    let mut db = Database::new();
    db.insert("urxvt.foreground", "#eeeeee");
    db.insert("urxvt.background", "#111111");
    db.insert("urxvt.color3", "#333333");
    let for_xterm = fetch_palette(Some(&db), "xterm").unwrap();
    assert_eq!(for_xterm.fg, None);
    assert_eq!(for_xterm.bg, None);
    assert_eq!(for_xterm.cursor, None);
    for i in 0..16 {
        assert_eq!(for_xterm.colors[i], None);
    }
    let for_urxvt = fetch_palette(Some(&db), "urxvt").unwrap();
    assert_eq!(for_urxvt.fg, Some(String::from("#eeeeee")));
    assert_eq!(for_urxvt.bg, Some(String::from("#111111")));
    assert_eq!(for_urxvt.colors[3], Some(String::from("#333333")));
}

#[test]
fn palette_keys_exact() {
    let keys = palette_keys("xterm");
    assert_eq!(keys.len(), 19);
    assert_eq!(keys[0], "xterm.foreground");
    assert_eq!(keys[1], "xterm.background");
    assert_eq!(keys[2], "xterm.cursorColor");
    for i in 0..16usize {
        assert_eq!(keys[3 + i], format!("xterm.color{}", i));
    }
}

#[test]
fn assembly_from_looked_up_keys() {
    // Filling a model snapshot with values found under the fetch's own key
    // list reproduces them in the record: the path a live shell takes.
    let mut source = Database::new();
    source.insert("st.cursorColor", "#00ff00");
    source.insert("st.color10", "#0a0a0a");
    let mut model = Database::new();
    for key in palette_keys("st") {
        if let Some(value) = source.query(&key) {
            model.insert(&key, &value);
        }
    }
    let r = fetch_palette(Some(&model), "st").unwrap();
    assert_eq!(r.cursor, Some(String::from("#00ff00")));
    assert_eq!(r.colors[10], Some(String::from("#0a0a0a")));
    assert_eq!(r.fg, None);
    assert_eq!(r.colors[0], None);
}

#[test]
fn empty_prefix_keys() {
    let mut db = Database::new();
    db.insert(".foreground", "#101010");
    let r = fetch_palette(Some(&db), "").unwrap();
    assert_eq!(r.fg, Some(String::from("#101010")));
    assert_eq!(r.bg, None);
}

#[test]
fn default_record_all_absent() {
    let r = XColors::default();
    assert_eq!(r.fg, None);
    assert_eq!(r.bg, None);
    assert_eq!(r.cursor, None);
    for i in 0..16 {
        assert_eq!(r.colors[i], None);
    }
}
