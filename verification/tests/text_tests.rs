use librarian::config::{ConfigError, LibrarianConfig};
use librarian::gamepad::{
    button_action, enter_kind, move_focus, toggle_select, Direction, EnterKind, ItemMark, PadAction, PadButton,
};
use librarian::paths::join;
use librarian::text::{
    byte_count, char_count, char_index_at_byte, decimal_text, insert_char_at, is_whitespace, remove_char_before, sort_texts, text_le_exec, trim,
};

#[test]
fn trimming_whitespace() {
    assert_eq!(trim("  a b \t\n"), "a b");
    assert_eq!(trim("\u{3000}x\u{a0}"), "x");
    assert_eq!(trim("   "), "");
    assert_eq!(trim(""), "");
    assert_eq!(trim("x"), "x");
    assert!(is_whitespace('\u{2028}'));
    assert!(!is_whitespace('a'));
}

#[test]
fn editing_at_a_position() {
    let s = "héllo".to_string();
    assert_eq!(insert_char_at(&s, 0, 'X'), "Xhéllo");
    assert_eq!(insert_char_at(&s, 3, 'X'), "héXllo");
    assert_eq!(insert_char_at(&s, 6, 'X'), "hélloX");
    assert_eq!(insert_char_at(&"éa".to_string(), 2, 'x'), "éxa");
    assert_eq!(remove_char_before(&s, 2), "hllo");
    assert_eq!(remove_char_before(&s, 0), "héllo");
    assert_eq!(remove_char_before(&s, 6), "héllo");
    assert_eq!(char_count(&s), 5);
    assert_eq!(byte_count(&s), 6);
}

#[test]
fn byte_offsets_and_boundaries() {
    let s = "héllo".to_string();
    assert_eq!(char_index_at_byte(&s, 0), Some(0));
    assert_eq!(char_index_at_byte(&s, 1), Some(1));
    assert_eq!(char_index_at_byte(&s, 2), None);
    assert_eq!(char_index_at_byte(&s, 3), Some(2));
    assert_eq!(char_index_at_byte(&s, 6), Some(5));
    assert_eq!(char_index_at_byte(&s, 7), None);
    let wide = "a😀".to_string();
    assert_eq!(byte_count(&wide), 5);
    assert_eq!(char_index_at_byte(&wide, 5), Some(2));
    assert_eq!(char_index_at_byte(&wide, 3), None);
    assert_eq!(char_index_at_byte(&String::new(), 0), Some(0));
    for (i, _) in s.char_indices() {
        assert!(char_index_at_byte(&s, i).is_some());
    }
    for i in 0..=s.len() {
        assert_eq!(char_index_at_byte(&s, i).is_some(), s.is_char_boundary(i));
    }
}

#[test]
fn ordering_and_sorting_texts() {
    assert!(text_le_exec(&"abc".to_string(), &"abd".to_string()));
    assert!(text_le_exec(&"ab".to_string(), &"abc".to_string()));
    assert!(!text_le_exec(&"b".to_string(), &"abc".to_string()));
    assert!(text_le_exec(&"Z".to_string(), &"a".to_string()));
    let mut v = vec!["new".to_string(), "coll3".to_string(), "coll1".to_string(), "Coll2".to_string(), "coll1".to_string()];
    sort_texts(&mut v);
    assert_eq!(v, vec!["Coll2", "coll1", "coll1", "coll3", "new"]);
}

#[test]
fn decimal_rendering() {
    assert_eq!(decimal_text(0), "0");
    assert_eq!(decimal_text(7), "7");
    assert_eq!(decimal_text(1000000), "1000000");
    assert_eq!(decimal_text(u64::MAX), u64::MAX.to_string());
}

#[test]
fn joining_paths() {
    assert_eq!(join("/base", "item"), "/base/item");
    assert_eq!(join("/base/", "item"), "/base/item");
    assert_eq!(join("", "item"), "item");
    assert_eq!(join("/base", "/abs"), "/abs");
    assert_eq!(join("/base", ""), "/base/");
}

#[test]
fn librarian_directories() {
    assert_eq!(LibrarianConfig::new(None).err(), Some(ConfigError::NoHomeDir));
    let c = LibrarianConfig::new(Some("/home/u".to_string())).unwrap();
    assert_eq!(c.downloads_dir, "/home/u/.riffcc/librarian/downloads");
    assert_eq!(c.processing_dir, "/home/u/.riffcc/librarian/processing");
    assert_eq!(c.library_dir, "/home/u/.riffcc/librarian/library");
    assert_eq!(c.cache_dir, "/home/u/.riffcc/librarian/cache");
    assert_eq!(c.thumbnail_cache_dir(), "/home/u/.riffcc/librarian/cache/thumbnails");
    assert_eq!(c.thumbnail_cache_path("item1"), "/home/u/.riffcc/librarian/cache/thumbnails/item1.jpg");
}

#[test]
fn gamepad_focus_moves() {
    assert_eq!(move_focus(0, 4, 9, Direction::Left), 0);
    assert_eq!(move_focus(3, 4, 9, Direction::Left), 2);
    assert_eq!(move_focus(9, 4, 9, Direction::Right), 9);
    assert_eq!(move_focus(8, 4, 9, Direction::Right), 9);
    assert_eq!(move_focus(5, 4, 9, Direction::Up), 1);
    assert_eq!(move_focus(2, 4, 9, Direction::Up), 2);
    assert_eq!(move_focus(5, 4, 9, Direction::Down), 9);
    assert_eq!(move_focus(6, 4, 9, Direction::Down), 6);
}

#[test]
fn gamepad_buttons() {
    assert_eq!(button_action(PadButton::South, 3, 0, false), PadAction::DownloadItem(3));
    assert_eq!(button_action(PadButton::South, 3, 2, false), PadAction::DownloadSelected);
    assert_eq!(button_action(PadButton::West, 3, 0, false), PadAction::ToggleSelect(3));
    assert_eq!(button_action(PadButton::North, 3, 0, false), PadAction::Play(3));
    assert_eq!(button_action(PadButton::East, 3, 0, true), PadAction::ClosePlayer);
    assert_eq!(button_action(PadButton::East, 3, 0, false), PadAction::NoAction);
    assert_eq!(button_action(PadButton::RightTrigger, 3, 0, true), PadAction::TogglePlayback);
    assert_eq!(button_action(PadButton::Other, 3, 0, true), PadAction::NoAction);
    assert_eq!(enter_kind("Collection"), EnterKind::OpenCollection);
    assert_eq!(enter_kind("Audio"), EnterKind::ShowDetails);
}

#[test]
fn gamepad_selection_marks() {
    let marks = vec![
        ItemMark { selected: false, visited: false },
        ItemMark { selected: true, visited: true },
    ];
    let (m, n) = toggle_select(&marks, 0);
    assert_eq!(m[0], ItemMark { selected: true, visited: true });
    assert_eq!(m[1], marks[1]);
    assert_eq!(n, 2);
    let (m2, n2) = toggle_select(&m, 1);
    assert_eq!(m2[1], ItemMark { selected: false, visited: true });
    assert_eq!(n2, 1);
    let (m3, n3) = toggle_select(&marks, -1);
    assert_eq!(m3, marks);
    assert_eq!(n3, 1);
    let (m4, _) = toggle_select(&marks, 5);
    assert_eq!(m4, marks);
}
