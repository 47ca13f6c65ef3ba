use librarian::app::{ActivePane, App, AppState, UpdateAction, DownloadAction};
use librarian::archive_api::{ArchiveDoc, FileDetails, ItemDetails};
use librarian::event::{KeyCode, KeyEvent, KeyModifiers};
use librarian::settings::DownloadMode;
use librarian::update::update;

fn setup_test_app() -> App {
    let mut app = App::new();
    app.settings.favorite_collections = vec!["coll1".to_string(), "coll2".to_string(), "coll3".to_string()];
    app.settings.download_directory = Some("/fake/test/dir".to_string());
    app.collection_list_state.select(Some(0));
    app
}

fn key(code: KeyCode) -> KeyEvent {
    KeyEvent::new(code, KeyModifiers::NONE)
}

#[test]
fn test_update_quit_keys() {
    let mut app = setup_test_app();
    assert!(app.running);

    app.current_state = AppState::Browsing;
    update(&mut app, KeyEvent::new(KeyCode::Char('q'), KeyModifiers::NONE));
    assert!(!app.running, "App should not be running after 'q'");

    app.running = true;
    update(&mut app, KeyEvent::new(KeyCode::Char('c'), KeyModifiers::CONTROL));
    assert!(!app.running, "App should not be running after Ctrl+C");

    app.running = true;
    update(&mut app, KeyEvent::new(KeyCode::Esc, KeyModifiers::NONE));
    assert!(!app.running, "App should not be running after Esc in Browsing");
}

#[test]
fn test_update_tab_switches_panes_in_browsing() {
    let mut app = setup_test_app();
    app.current_state = AppState::Browsing;
    app.active_pane = ActivePane::Collections;

    update(&mut app, KeyEvent::new(KeyCode::Tab, KeyModifiers::NONE));
    assert_eq!(app.active_pane, ActivePane::Items);

    update(&mut app, KeyEvent::new(KeyCode::Tab, KeyModifiers::NONE));
    assert_eq!(app.active_pane, ActivePane::Collections);
}

#[test]
fn test_update_collection_pane_navigation() {
    let mut app = setup_test_app();
    app.current_state = AppState::Browsing;
    app.active_pane = ActivePane::Collections;
    app.collection_list_state.select(Some(0));

    update(&mut app, KeyEvent::new(KeyCode::Down, KeyModifiers::NONE));
    assert_eq!(app.collection_list_state.selected(), Some(1));

    update(&mut app, KeyEvent::new(KeyCode::Down, KeyModifiers::NONE));
    assert_eq!(app.collection_list_state.selected(), Some(2));

    update(&mut app, KeyEvent::new(KeyCode::Down, KeyModifiers::NONE));
    assert_eq!(app.collection_list_state.selected(), Some(0));

    update(&mut app, KeyEvent::new(KeyCode::Up, KeyModifiers::NONE));
    assert_eq!(app.collection_list_state.selected(), Some(2));

    update(&mut app, KeyEvent::new(KeyCode::Up, KeyModifiers::NONE));
    assert_eq!(app.collection_list_state.selected(), Some(1));
}

#[test]
fn test_update_item_pane_navigation() {
    let mut app = setup_test_app();
    app.current_state = AppState::Browsing;
    app.active_pane = ActivePane::Items;
    app.items = vec![
        ArchiveDoc { identifier: "itemA".to_string() },
        ArchiveDoc { identifier: "itemB".to_string() },
    ];
    app.item_list_state.select(None);

    update(&mut app, KeyEvent::new(KeyCode::Down, KeyModifiers::NONE));
    assert_eq!(app.item_list_state.selected(), Some(0));

    update(&mut app, KeyEvent::new(KeyCode::Down, KeyModifiers::NONE));
    assert_eq!(app.item_list_state.selected(), Some(1));

    update(&mut app, KeyEvent::new(KeyCode::Down, KeyModifiers::NONE));
    assert_eq!(app.item_list_state.selected(), Some(0));

    update(&mut app, KeyEvent::new(KeyCode::Up, KeyModifiers::NONE));
    assert_eq!(app.item_list_state.selected(), Some(1));
}

#[test]
fn test_update_collection_pane_enter_loads_items() {
    let mut app = setup_test_app();
    app.current_state = AppState::Browsing;
    app.active_pane = ActivePane::Collections;
    app.collection_list_state.select(Some(1));

    let action = update(&mut app, KeyEvent::new(KeyCode::Enter, KeyModifiers::NONE));

    assert!(action.is_some());
    assert!(matches!(action, Some(UpdateAction::FetchCollectionItems(ref name)) if name == "coll2"));
    assert_eq!(app.current_collection_name, Some("coll2".to_string()));
    assert!(app.items.is_empty());
    assert!(app.item_list_state.selected().is_none());
    assert!(app.is_loading);
    assert_eq!(app.active_pane, ActivePane::Items);
}

#[test]
fn test_update_collection_pane_delete_removes_item_and_saves() {
    let mut app = setup_test_app();
    app.current_state = AppState::Browsing;
    app.active_pane = ActivePane::Collections;
    app.collection_list_state.select(Some(1));
    assert_eq!(app.settings.favorite_collections.len(), 3);

    let action = update(&mut app, KeyEvent::new(KeyCode::Delete, KeyModifiers::NONE));

    assert!(action.is_some());
    assert!(matches!(action, Some(UpdateAction::SaveSettings)));
    assert_eq!(app.settings.favorite_collections.len(), 2);
    assert_eq!(app.settings.favorite_collections, vec!["coll1".to_string(), "coll3".to_string()]);
    assert_eq!(app.collection_list_state.selected(), Some(1));
}

#[test]
fn test_update_collection_pane_delete_removes_last_item() {
    let mut app = setup_test_app();
    app.current_state = AppState::Browsing;
    app.active_pane = ActivePane::Collections;
    app.collection_list_state.select(Some(2));
    assert_eq!(app.settings.favorite_collections.len(), 3);

    let action = update(&mut app, KeyEvent::new(KeyCode::Delete, KeyModifiers::NONE));

    assert!(action.is_some());
    assert!(matches!(action, Some(UpdateAction::SaveSettings)));
    assert_eq!(app.settings.favorite_collections.len(), 2);
    assert_eq!(app.settings.favorite_collections, vec!["coll1".to_string(), "coll2".to_string()]);
    assert_eq!(app.collection_list_state.selected(), Some(1));
}

#[test]
fn test_update_collection_pane_a_enters_adding_state() {
    let mut app = setup_test_app();
    app.current_state = AppState::Browsing;
    app.active_pane = ActivePane::Collections;

    let action = update(&mut app, KeyEvent::new(KeyCode::Char('a'), KeyModifiers::NONE));

    assert!(action.is_none());
    assert_eq!(app.current_state, AppState::AddingCollection);
    assert!(app.add_collection_input.is_empty());
    assert_eq!(app.add_collection_cursor_pos, 0);
}

#[test]
fn test_update_adding_collection_input_and_save() {
    let mut app = setup_test_app();
    app.current_state = AppState::AddingCollection;
    assert_eq!(app.settings.favorite_collections.len(), 3);

    update(&mut app, KeyEvent::new(KeyCode::Char('n'), KeyModifiers::NONE));
    update(&mut app, KeyEvent::new(KeyCode::Char('e'), KeyModifiers::NONE));
    update(&mut app, KeyEvent::new(KeyCode::Char('w'), KeyModifiers::NONE));
    assert_eq!(app.add_collection_input, "new");

    let action = update(&mut app, KeyEvent::new(KeyCode::Enter, KeyModifiers::NONE));

    assert!(action.is_some());
    assert!(matches!(action, Some(UpdateAction::SaveSettings)));
    assert_eq!(app.current_state, AppState::Browsing);
    assert_eq!(app.settings.favorite_collections.len(), 4);
    assert!(app.settings.favorite_collections.contains(&"new".to_string()));
    let expected_sorted = vec!["coll1", "coll2", "coll3", "new"];
    assert_eq!(app.settings.favorite_collections, expected_sorted);
    assert_eq!(app.collection_list_state.selected(), Some(3));
}

#[test]
fn test_update_adding_collection_esc_cancels() {
    let mut app = setup_test_app();
    app.current_state = AppState::AddingCollection;
    app.add_collection_input = "partial".to_string();

    let action = update(&mut app, KeyEvent::new(KeyCode::Esc, KeyModifiers::NONE));

    assert!(action.is_none());
    assert_eq!(app.current_state, AppState::Browsing);
    assert_eq!(app.settings.favorite_collections.len(), 3);
    assert!(app.add_collection_input.is_empty());
}

#[test]
fn test_update_settings_navigation_and_adjustment() {
    let mut app = setup_test_app();
    app.current_state = AppState::SettingsView;
    app.selected_setting_index = 0;
    app.settings_list_state.select(Some(0));
    app.settings.download_mode = DownloadMode::Direct;
    app.settings.max_concurrent_downloads = Some(4);
    app.settings.max_concurrent_collections = Some(1);

    update(&mut app, KeyEvent::new(KeyCode::Down, KeyModifiers::NONE));
    assert_eq!(app.selected_setting_index, 1);
    assert_eq!(app.settings_list_state.selected(), Some(1));

    update(&mut app, KeyEvent::new(KeyCode::Right, KeyModifiers::NONE));
    assert_eq!(app.settings.download_mode, DownloadMode::TorrentOnly);

    update(&mut app, KeyEvent::new(KeyCode::Left, KeyModifiers::NONE));
    assert_eq!(app.settings.download_mode, DownloadMode::Direct);

    update(&mut app, KeyEvent::new(KeyCode::Down, KeyModifiers::NONE));
    assert_eq!(app.selected_setting_index, 2);
    assert_eq!(app.settings_list_state.selected(), Some(2));

    update(&mut app, KeyEvent::new(KeyCode::Right, KeyModifiers::NONE));
    assert_eq!(app.settings.max_concurrent_downloads, Some(5));

    update(&mut app, KeyEvent::new(KeyCode::Left, KeyModifiers::NONE));
    assert_eq!(app.settings.max_concurrent_downloads, Some(4));

    update(&mut app, KeyEvent::new(KeyCode::Left, KeyModifiers::NONE));
    update(&mut app, KeyEvent::new(KeyCode::Left, KeyModifiers::NONE));
    update(&mut app, KeyEvent::new(KeyCode::Left, KeyModifiers::NONE));
    update(&mut app, KeyEvent::new(KeyCode::Left, KeyModifiers::NONE));
    assert_eq!(app.settings.max_concurrent_downloads, Some(1));

    update(&mut app, KeyEvent::new(KeyCode::Down, KeyModifiers::NONE));
    assert_eq!(app.selected_setting_index, 3);
    assert_eq!(app.settings_list_state.selected(), Some(3));

    update(&mut app, KeyEvent::new(KeyCode::Right, KeyModifiers::NONE));
    assert_eq!(app.settings.max_concurrent_collections, Some(2));

    update(&mut app, KeyEvent::new(KeyCode::Left, KeyModifiers::NONE));
    assert_eq!(app.settings.max_concurrent_collections, Some(1));

    update(&mut app, KeyEvent::new(KeyCode::Left, KeyModifiers::NONE));
    assert_eq!(app.settings.max_concurrent_collections, Some(1));

    update(&mut app, KeyEvent::new(KeyCode::Down, KeyModifiers::NONE));
    assert_eq!(app.selected_setting_index, 0);

    let action = update(&mut app, KeyEvent::new(KeyCode::Enter, KeyModifiers::NONE));
    assert!(action.is_none());
    assert_eq!(app.current_state, AppState::EditingSetting);
}

// --- Further scenarios of the key handling ---

#[test]
fn collection_download_without_directory_asks_for_it() {
    let mut app = setup_test_app();
    app.settings.download_directory = None;
    app.editing_setting_input = "leftover".to_string();
    app.cursor_position = 3;
    let action = update(&mut app, key(KeyCode::Char('d')));
    assert!(action.is_none());
    assert_eq!(app.current_state, AppState::AskingDownloadDir);
    assert!(app.editing_setting_input.is_empty());
    assert_eq!(app.cursor_position, 0);
}

#[test]
fn collection_download_queues_collection() {
    let mut app = setup_test_app();
    app.collection_list_state.select(Some(1));
    let action = update(&mut app, key(KeyCode::Char('b')));
    assert!(matches!(action, Some(UpdateAction::StartDownload(DownloadAction::Collection(ref c))) if c == "coll2"));
    assert_eq!(app.download_status, Some("Queueing download for collection: coll2".to_string()));
}

#[test]
fn collection_download_without_selection_reports() {
    let mut app = setup_test_app();
    app.collection_list_state.select(None);
    let action = update(&mut app, key(KeyCode::Char('d')));
    assert!(action.is_none());
    assert_eq!(app.error_message, Some("Select a collection to download.".to_string()));
}

#[test]
fn deleting_viewed_collection_clears_items() {
    let mut app = setup_test_app();
    app.current_collection_name = Some("coll1".to_string());
    app.items = vec![ArchiveDoc { identifier: "x".to_string() }];
    app.item_list_state.select(Some(0));
    app.total_items_found = Some(1);
    let action = update(&mut app, key(KeyCode::Backspace));
    assert!(matches!(action, Some(UpdateAction::SaveSettings)));
    assert!(app.items.is_empty());
    assert_eq!(app.item_list_state.selected(), None);
    assert_eq!(app.current_collection_name, None);
    assert_eq!(app.total_items_found, None);
    assert_eq!(app.collection_list_state.selected(), Some(0));
}

#[test]
fn item_enter_views_details() {
    let mut app = setup_test_app();
    app.active_pane = ActivePane::Items;
    app.items = vec![ArchiveDoc { identifier: "itemA".to_string() }];
    app.item_list_state.select(Some(0));
    let action = update(&mut app, key(KeyCode::Enter));
    assert!(matches!(action, Some(UpdateAction::FetchItemDetails)));
    assert_eq!(app.current_state, AppState::ViewingItem);
    assert_eq!(app.viewing_item_id, Some("itemA".to_string()));
    assert!(app.is_loading_details);
}

#[test]
fn item_download_queues_item() {
    let mut app = setup_test_app();
    app.active_pane = ActivePane::Items;
    app.items = vec![ArchiveDoc { identifier: "itemA".to_string() }];
    app.item_list_state.select(Some(0));
    let action = update(&mut app, key(KeyCode::Char('d')));
    assert!(matches!(action, Some(UpdateAction::StartDownload(DownloadAction::ItemAllFiles(ref i))) if i == "itemA"));
    assert_eq!(app.download_status, Some("Queueing download for item: itemA".to_string()));
}

#[test]
fn item_download_without_selection_reports() {
    let mut app = setup_test_app();
    app.active_pane = ActivePane::Items;
    let action = update(&mut app, key(KeyCode::Char('d')));
    assert!(action.is_none());
    assert_eq!(app.error_message, Some("Select an item to download.".to_string()));
}

#[test]
fn bulk_download_of_items_pane() {
    let mut app = setup_test_app();
    app.active_pane = ActivePane::Items;
    let action = update(&mut app, key(KeyCode::Char('b')));
    assert!(action.is_none());
    assert_eq!(app.error_message, Some("No collection selected to download items from.".to_string()));

    app.current_collection_name = Some("coll1".to_string());
    let action = update(&mut app, key(KeyCode::Char('b')));
    assert!(action.is_none());
    assert_eq!(app.error_message, Some("No items listed to download.".to_string()));

    app.items = vec![ArchiveDoc { identifier: "x".to_string() }];
    let action = update(&mut app, key(KeyCode::Char('b')));
    assert!(matches!(action, Some(UpdateAction::StartDownload(DownloadAction::Collection(ref c))) if c == "coll1"));
    assert_eq!(app.download_status, Some("Queueing bulk download for collection: coll1".to_string()));
    assert_eq!(app.error_message, None);
}

#[test]
fn asking_dir_typing_and_saving() {
    let mut app = setup_test_app();
    app.settings.download_directory = None;
    update(&mut app, key(KeyCode::Char('d')));
    for c in " /data ".chars() {
        update(&mut app, key(KeyCode::Char(c)));
    }
    assert_eq!(app.editing_setting_input, " /data ");
    assert_eq!(app.cursor_position, 7);
    update(&mut app, key(KeyCode::Left));
    update(&mut app, key(KeyCode::Backspace));
    assert_eq!(app.editing_setting_input, " /dat ");
    assert_eq!(app.cursor_position, 5);
    let action = update(&mut app, key(KeyCode::Enter));
    assert!(matches!(action, Some(UpdateAction::SaveSettings)));
    assert_eq!(app.settings.download_directory, Some("/dat".to_string()));
    assert_eq!(app.current_state, AppState::Browsing);
    assert!(app.editing_setting_input.is_empty());
    assert_eq!(
        app.error_message,
        Some("Download directory saved. Press 'd'/'b' again to start download.".to_string())
    );
}

#[test]
fn asking_dir_rejects_blank_input() {
    let mut app = setup_test_app();
    app.settings.download_directory = None;
    update(&mut app, key(KeyCode::Char('d')));
    update(&mut app, key(KeyCode::Char(' ')));
    let action = update(&mut app, key(KeyCode::Enter));
    assert!(action.is_none());
    assert_eq!(app.current_state, AppState::AskingDownloadDir);
    assert_eq!(
        app.error_message,
        Some("Download directory cannot be empty. Press Esc to cancel.".to_string())
    );
    update(&mut app, key(KeyCode::Esc));
    assert_eq!(app.current_state, AppState::Browsing);
    assert_eq!(app.error_message, None);
    assert!(app.running);
}

fn viewing_app() -> App {
    let mut app = setup_test_app();
    app.current_state = AppState::ViewingItem;
    app.viewing_item_id = Some("item".to_string());
    let mut details = ItemDetails::default();
    details.files = vec![
        FileDetails { name: "a.mp3".to_string(), ..FileDetails::default() },
        FileDetails { name: "b.flac".to_string(), ..FileDetails::default() },
    ];
    app.current_item_details = Some(details);
    app
}

#[test]
fn viewing_item_file_selection_and_download() {
    let mut app = viewing_app();
    let action = update(&mut app, key(KeyCode::Enter));
    assert!(action.is_none());
    assert_eq!(app.error_message, Some("Select a file to download.".to_string()));
    update(&mut app, key(KeyCode::Up));
    assert_eq!(app.file_list_state.selected(), Some(0));
    update(&mut app, key(KeyCode::Up));
    assert_eq!(app.file_list_state.selected(), Some(1));
    let action = update(&mut app, key(KeyCode::Char('d')));
    match action {
        Some(UpdateAction::StartDownload(DownloadAction::File(id, f))) => {
            assert_eq!(id, "item");
            assert_eq!(f.name, "b.flac");
        }
        other => panic!("unexpected action {:?}", other),
    }
    assert_eq!(app.download_status, Some("Queueing download for file: b.flac".to_string()));
    let action = update(&mut app, key(KeyCode::Char('b')));
    assert!(matches!(action, Some(UpdateAction::StartDownload(DownloadAction::ItemAllFiles(ref i))) if i == "item"));
    assert_eq!(app.download_status, Some("Queueing download for all files in item: item".to_string()));
}

#[test]
fn viewing_item_esc_returns_to_browsing() {
    let mut app = viewing_app();
    app.file_list_state.select(Some(1));
    let action = update(&mut app, key(KeyCode::Esc));
    assert!(action.is_none());
    assert!(app.running);
    assert_eq!(app.current_state, AppState::Browsing);
    assert_eq!(app.viewing_item_id, None);
    assert!(app.current_item_details.is_none());
    assert_eq!(app.file_list_state.selected(), None);
}

#[test]
fn s_opens_settings_from_item_view() {
    let mut app = viewing_app();
    app.selected_setting_index = 2;
    let action = update(&mut app, key(KeyCode::Char('s')));
    assert!(action.is_none());
    assert_eq!(app.current_state, AppState::SettingsView);
    assert_eq!(app.settings_list_state.selected(), Some(2));
}

#[test]
fn s_is_typed_in_input_states() {
    let mut app = setup_test_app();
    app.current_state = AppState::AddingCollection;
    update(&mut app, key(KeyCode::Char('s')));
    assert_eq!(app.current_state, AppState::AddingCollection);
    assert_eq!(app.add_collection_input, "s");
}

#[test]
fn editing_setting_sets_and_clears_directory() {
    let mut app = setup_test_app();
    app.current_state = AppState::SettingsView;
    update(&mut app, key(KeyCode::Enter));
    assert_eq!(app.current_state, AppState::EditingSetting);
    assert_eq!(app.editing_setting_input, "/fake/test/dir");
    assert_eq!(app.cursor_position, 14);
    for _ in 0..14 {
        update(&mut app, key(KeyCode::Backspace));
    }
    assert!(app.editing_setting_input.is_empty());
    let action = update(&mut app, key(KeyCode::Enter));
    assert!(action.is_none());
    assert_eq!(app.current_state, AppState::SettingsView);
    assert_eq!(app.settings.download_directory, None);
    let action = update(&mut app, key(KeyCode::Esc));
    assert!(matches!(action, Some(UpdateAction::SaveSettings)));
    assert_eq!(app.current_state, AppState::Browsing);
}

#[test]
fn settings_up_wraps_to_last_entry() {
    let mut app = setup_test_app();
    app.current_state = AppState::SettingsView;
    update(&mut app, key(KeyCode::Up));
    assert_eq!(app.selected_setting_index, 3);
    assert_eq!(app.settings_list_state.selected(), Some(3));
}

#[test]
fn adding_existing_collection_keeps_list() {
    let mut app = setup_test_app();
    app.current_state = AppState::AddingCollection;
    app.add_collection_input = "  coll2 ".to_string();
    let action = update(&mut app, key(KeyCode::Enter));
    assert!(matches!(action, Some(UpdateAction::SaveSettings)));
    assert_eq!(app.settings.favorite_collections, vec!["coll1", "coll2", "coll3"]);
    assert_eq!(app.collection_list_state.selected(), Some(0));
}

#[test]
fn adding_blank_collection_reports() {
    let mut app = setup_test_app();
    app.current_state = AppState::AddingCollection;
    app.add_collection_input = "   ".to_string();
    let action = update(&mut app, key(KeyCode::Enter));
    assert!(action.is_none());
    assert_eq!(
        app.error_message,
        Some("Collection identifier cannot be empty. Press Esc to cancel.".to_string())
    );
    assert_eq!(app.current_state, AppState::AddingCollection);
}

#[test]
fn errors_and_status_are_cleared_by_next_key() {
    let mut app = setup_test_app();
    app.error_message = Some("old".to_string());
    app.download_status = Some("done".to_string());
    app.pending_action = Some(UpdateAction::SaveSettings);
    let action = update(&mut app, key(KeyCode::Home));
    assert!(action.is_none());
    assert_eq!(app.error_message, None);
    assert_eq!(app.download_status, None);
    assert!(app.pending_action.is_none());

    app.is_downloading = true;
    app.download_status = Some("running".to_string());
    update(&mut app, key(KeyCode::Home));
    assert_eq!(app.download_status, Some("running".to_string()));
}

#[test]
fn downloading_state_ignores_keys_but_quit() {
    let mut app = setup_test_app();
    app.current_state = AppState::Downloading;
    let action = update(&mut app, key(KeyCode::Esc));
    assert!(action.is_none());
    assert!(app.running);
    update(&mut app, KeyEvent::new(KeyCode::Char('C'), KeyModifiers::CONTROL));
    assert!(!app.running);
}

#[test]
fn plain_c_does_not_quit() {
    let mut app = setup_test_app();
    update(&mut app, key(KeyCode::Char('c')));
    assert!(app.running);
}

#[test]
fn editing_non_ascii_directory_uses_byte_offsets() {
    let mut app = setup_test_app();
    app.settings.download_directory = Some("/tmp/é".to_string());
    app.current_state = AppState::SettingsView;
    update(&mut app, key(KeyCode::Enter));
    assert_eq!(app.current_state, AppState::EditingSetting);
    assert_eq!(app.cursor_position, 7);
    update(&mut app, key(KeyCode::Char('x')));
    assert_eq!(app.editing_setting_input, "/tmp/éx");
    assert_eq!(app.cursor_position, 7);
    update(&mut app, key(KeyCode::Char('y')));
    assert_eq!(app.editing_setting_input, "/tmp/éyx");
    assert_eq!(app.cursor_position, 8);
}

#[test]
fn typing_inserts_at_the_cursor_byte_offset() {
    let mut app = setup_test_app();
    app.current_state = AppState::AddingCollection;
    app.add_collection_input = "éa".to_string();
    app.add_collection_cursor_pos = 2;
    update(&mut app, key(KeyCode::Char('x')));
    assert_eq!(app.add_collection_input, "éxa");
    assert_eq!(app.add_collection_cursor_pos, 3);
    update(&mut app, key(KeyCode::Backspace));
    assert_eq!(app.add_collection_input, "éx");
    assert_eq!(app.add_collection_cursor_pos, 2);
}

#[test]
fn ctrl_c_quits_however_control_is_written() {
    let mut app = setup_test_app();
    update(&mut app, KeyEvent::new(KeyCode::Char('c'), KeyModifiers::Combined(2)));
    assert!(!app.running);
    let mut app = setup_test_app();
    update(&mut app, KeyEvent::new(KeyCode::Char('C'), KeyModifiers::Combined(3)));
    assert!(app.running);
    assert_eq!(KeyModifiers::Combined(2).bits(), KeyModifiers::CONTROL.bits());
    assert_eq!(KeyModifiers::META.bits(), 32);
}
