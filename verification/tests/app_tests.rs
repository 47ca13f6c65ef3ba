use librarian::app::{ActivePane, App, AppState, ListSelection};
use librarian::archive_api::{FileDetails, ItemDetails};
use librarian::settings::{DownloadMode, Settings};
use librarian::ui::{
    collection_list_notice, file_line, input_box, is_pane_active, item_list_notice, item_list_title,
    item_view_notice, item_view_title, join_texts, metadata_view, screen_for, settings_lines, status_text,
    status_tone, MainView, Notice, Overlay, StatusTone,
};

#[test]
fn new_app_defaults() {
    let app = App::new();
    assert!(app.running);
    assert_eq!(app.current_state, AppState::Browsing);
    assert_eq!(app.active_pane, ActivePane::Collections);
    assert_eq!(app.settings, Settings::default());
    assert_eq!(app.collection_list_state.selected(), None);
    assert!(app.pending_action.is_none());
    assert_eq!(ListSelection::default().selected(), None);
}

#[test]
fn load_settings_selects_first_collection() {
    let mut app = App::new();
    let mut s = Settings::default();
    s.favorite_collections = vec!["x".to_string()];
    app.load_settings(s);
    assert_eq!(app.collection_list_state.selected(), Some(0));
    app.load_settings(Settings::default());
    assert_eq!(app.collection_list_state.selected(), None);
    app.tick();
    app.quit();
    assert!(!app.running);
}

#[test]
fn favorites_add_sorted_and_remove() {
    let mut app = App::new();
    app.add_collection_to_favorites("  zeta ".to_string());
    app.add_collection_to_favorites("alpha".to_string());
    app.add_collection_to_favorites("mid".to_string());
    assert_eq!(app.settings.favorite_collections, vec!["alpha", "mid", "zeta"]);
    assert_eq!(app.collection_list_state.selected(), Some(1));
    assert_eq!(app.get_selected_collection(), Some(&"mid".to_string()));
    app.add_collection_to_favorites("mid".to_string());
    app.add_collection_to_favorites("   ".to_string());
    assert_eq!(app.settings.favorite_collections.len(), 3);
    assert!(app.remove_selected_collection());
    assert_eq!(app.settings.favorite_collections, vec!["alpha", "zeta"]);
    assert_eq!(app.collection_list_state.selected(), Some(1));
    assert!(app.remove_selected_collection());
    assert_eq!(app.collection_list_state.selected(), Some(0));
    assert!(app.remove_selected_collection());
    assert_eq!(app.collection_list_state.selected(), None);
    assert!(!app.remove_selected_collection());
}

#[test]
fn cursor_moves_are_clamped() {
    let mut app = App::new();
    app.editing_setting_input = "ab".to_string();
    app.move_cursor_left_edit_setting();
    assert_eq!(app.cursor_position, 0);
    app.move_cursor_right_edit_setting();
    app.move_cursor_right_edit_setting();
    app.move_cursor_right_edit_setting();
    assert_eq!(app.cursor_position, 2);
    app.enter_char_edit_setting('c');
    assert_eq!(app.editing_setting_input, "abc");
    assert_eq!(app.cursor_position, 3);
    app.delete_char_edit_setting();
    assert_eq!(app.editing_setting_input, "ab");
    assert_eq!(app.cursor_position, 2);
    app.add_collection_input = "xy".to_string();
    app.add_collection_cursor_pos = 1;
    app.enter_char_add_collection('-');
    assert_eq!(app.add_collection_input, "x-y");
    app.move_cursor_left_add_collection();
    app.delete_char_add_collection();
    assert_eq!(app.add_collection_input, "-y");
    assert_eq!(app.add_collection_cursor_pos, 0);
    app.move_cursor_right_add_collection();
    assert_eq!(app.add_collection_cursor_pos, 1);
}

#[test]
fn download_paths() {
    let mut app = App::new();
    let f = FileDetails { name: "a.mp3".to_string(), ..FileDetails::default() };
    assert_eq!(app.get_download_path_for_file(&f), None);
    app.settings.download_directory = Some("/dl".to_string());
    assert_eq!(app.get_download_path_for_item(), None);
    app.viewing_item_id = Some("item".to_string());
    assert_eq!(app.get_download_path_for_item(), Some("/dl/item".to_string()));
    assert_eq!(app.get_download_path_for_file(&f), Some("/dl/item/a.mp3".to_string()));
}

#[test]
fn file_selection() {
    let mut app = App::new();
    app.select_next_file();
    assert_eq!(app.file_list_state.selected(), None);
    let mut d = ItemDetails::default();
    d.files = vec![FileDetails { name: "a".to_string(), ..FileDetails::default() }];
    app.current_item_details = Some(d);
    app.select_next_file();
    assert_eq!(app.file_list_state.selected(), Some(0));
    assert_eq!(app.get_selected_file().map(|f| f.name.clone()), Some("a".to_string()));
    app.select_previous_file();
    assert_eq!(app.file_list_state.selected(), Some(0));
    app.select_previous_item();
    assert_eq!(app.item_list_state.selected(), None);
}

#[test]
fn screens_and_overlays() {
    assert_eq!(screen_for(AppState::Browsing), (MainView::Browsing, Overlay::NoOverlay));
    assert_eq!(screen_for(AppState::EditingSetting), (MainView::Settings, Overlay::EditSetting));
    assert_eq!(screen_for(AppState::AddingCollection), (MainView::Browsing, Overlay::AddCollection));
    assert_eq!(screen_for(AppState::AskingDownloadDir), (MainView::Browsing, Overlay::AskDownloadDir));
    assert_eq!(screen_for(AppState::ViewingItem), (MainView::Item, Overlay::NoOverlay));
    let mut app = App::new();
    app.add_collection_input = "abc".to_string();
    app.add_collection_cursor_pos = 2;
    let b = input_box(&app, Overlay::AddCollection);
    assert_eq!(b.prompt, "Collection ID: ");
    assert_eq!(b.input, "abc");
    assert_eq!(b.cursor, 2);
    assert_eq!(b.title, "Add Collection (Enter: Save, Esc: Cancel)");
    let b = input_box(&app, Overlay::AskDownloadDir);
    assert_eq!(b.prompt, "Download Path: ");
}

#[test]
fn item_pane_texts() {
    let mut app = App::new();
    assert_eq!(item_list_title(&app), "Items (Select a collection) (Tab: Switch)");
    assert_eq!(item_list_notice(&app), Some(Notice::Empty("<- Select a collection".to_string())));
    app.current_collection_name = Some("coll".to_string());
    assert_eq!(
        item_list_title(&app),
        "Items for 'coll' (0 / ?) (Enter: View, 'd': Item, 'b': All, Tab: Switch)"
    );
    assert_eq!(item_list_notice(&app), Some(Notice::Empty("No items found for this collection.".to_string())));
    app.is_loading = true;
    assert_eq!(item_list_notice(&app), Some(Notice::Loading("Loading items...".to_string())));
    app.is_loading = false;
    app.error_message = Some("boom".to_string());
    assert_eq!(item_list_notice(&app), Some(Notice::Failure("Error: boom".to_string())));
    app.error_message = None;
    app.items = vec![librarian::archive_api::ArchiveDoc { identifier: "i".to_string() }];
    app.total_items_found = Some(12);
    assert_eq!(item_list_notice(&app), None);
    assert_eq!(
        item_list_title(&app),
        "Items for 'coll' (1 / 12) (Enter: View, 'd': Item, 'b': All, Tab: Switch)"
    );
    assert!(is_pane_active(&app, ActivePane::Collections));
    assert_eq!(
        collection_list_notice(&app),
        Some(Notice::Empty("No collections saved.\nPress 'a' to add one.".to_string()))
    );
}

#[test]
fn item_view_texts() {
    let mut app = App::new();
    assert_eq!(
        item_view_title(&app),
        "Item: Unknown / Unknown (Esc: Back, ↑/↓: Files, Enter/'d': File, 'b': All Files)"
    );
    assert_eq!(item_view_notice(&app), Some(Notice::Failure("Failed to load item details.".to_string())));
    app.is_loading_details = true;
    assert_eq!(item_view_notice(&app), Some(Notice::Loading("Loading details...".to_string())));
    let mut d = ItemDetails::default();
    d.title = Some("T".to_string());
    d.collections = vec!["a".to_string(), "b".to_string()];
    let v = metadata_view(&d);
    assert_eq!(v.title, "T");
    assert_eq!(v.creator, "N/A");
    assert_eq!(v.collections, "a, b");
    assert_eq!(v.description, "N/A");
    assert_eq!(metadata_view(&ItemDetails::default()).collections, "N/A");
    let f = FileDetails { name: "x.mp3".to_string(), format: Some("MP3".to_string()), ..FileDetails::default() };
    assert_eq!(file_line(&f), "x.mp3 (Format: MP3, Size: N/A)");
    assert_eq!(join_texts(&vec![], ", "), "");
}

#[test]
fn settings_texts() {
    let mut app = App::new();
    app.selected_setting_index = 1;
    let lines = settings_lines(&app);
    assert_eq!(lines.len(), 4);
    assert_eq!(lines[0], "Download Directory: Not Set");
    assert_eq!(lines[1], "Download Mode: Direct (All Files) < >");
    assert_eq!(lines[2], "Max Concurrent File Downloads: 4 ");
    assert_eq!(lines[3], "Max Concurrent Collection Downloads: 1 ");
    app.selected_setting_index = 2;
    let lines = settings_lines(&app);
    assert_eq!(lines[1], "Download Mode: Direct (All Files) ");
    assert_eq!(lines[2], "Max Concurrent File Downloads: 4 < >");
    app.settings.max_concurrent_collections = None;
    app.settings.download_mode = DownloadMode::TorrentOnly;
    app.selected_setting_index = 3;
    let lines = settings_lines(&app);
    assert_eq!(lines[1], "Download Mode: Torrent Only (.torrent) ");
    assert_eq!(lines[3], "Max Concurrent Collection Downloads: Unlimited < >");
}

#[test]
fn status_bar() {
    let mut app = App::new();
    assert!(status_text(&app, "").starts_with("Collections Pane."));
    assert_eq!(status_tone(&app), StatusTone::Plain);
    app.active_pane = ActivePane::Items;
    assert!(status_text(&app, "").starts_with("Items Pane."));
    app.current_state = AppState::SettingsView;
    assert_eq!(status_text(&app, ""), " ");
    app.is_loading = true;
    assert_eq!(status_text(&app, ""), "Fetching collection data...");
    app.error_message = Some("bad".to_string());
    assert_eq!(status_text(&app, ""), "bad");
    assert_eq!(status_tone(&app), StatusTone::Failure);
    app.error_message = None;
    app.download_status = Some("Finished".to_string());
    assert_eq!(status_tone(&app), StatusTone::Done);
    app.download_status = Some("Download Failed".to_string());
    assert_eq!(status_tone(&app), StatusTone::Failure);
    app.is_downloading = true;
    app.download_status = Some("item 1".to_string());
    app.items_downloaded_count = 2;
    app.total_items_to_download = Some(5);
    app.files_downloaded_count = 7;
    assert_eq!(status_text(&app, " (1.0 KB/s)"), "Downloading [Items: 2/5 | Files: 7/? (1.0 KB/s)]: item 1");
    assert_eq!(status_tone(&app), StatusTone::Active);
}

#[test]
fn deleting_the_added_collection_restores_favorites() {
    let mut app = App::new();
    app.settings.favorite_collections = vec!["b".to_string(), "a".to_string()];
    app.add_collection_to_favorites("c".to_string());
    assert_eq!(app.settings.favorite_collections, vec!["a", "b", "c"]);
    assert!(app.remove_selected_collection());
    let mut left = app.settings.favorite_collections.clone();
    left.sort();
    assert_eq!(left, vec!["a", "b"]);
}

#[test]
fn trimming_twice_changes_nothing() {
    let once = librarian::text::trim(" \t x y \n");
    assert_eq!(librarian::text::trim(&once), once);
}
