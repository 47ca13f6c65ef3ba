//! Key handling: how a key press changes the application state, and which
//! action it asks the main loop to perform.
use crate::app::{
    adds_favorite,
    cursor_left,
    cursor_right,
    favorite_added,
    file_count,
    next_position,
    previous_position,
    quit_app,
    selected_collection,
    selected_file,
    selection_after_removal,
    with_favorites,
    ActivePane,
    App,
    AppState,
    DownloadAction,
    ListSelection,
    UpdateAction,
    clone_action,
};
use crate::event::{modifier_bits, KeyCode, KeyEvent, CONTROL_BITS};
use crate::settings::{toggled_mode, Settings};
use crate::text::{
    byte_count, byte_len, char_at_byte, char_count, concat_text, insert_at_byte, remove_before,
    same_text, trim, trimmed,
};
use vstd::prelude::*;

verus! {

/// Number of entries in the settings view: download directory, download
/// mode, file concurrency, collection concurrency.
pub const NUM_SETTINGS: usize = 4;

// ---------------------------------------------------------------------------
// Specification of the key handling
// ---------------------------------------------------------------------------

/// Whether `key` quits the application from any state: `q`, or Ctrl+C
/// (Control alone held, however the modifier set is written).
pub open spec fn is_quit_key(key: KeyEvent) -> bool {
    ||| key.code == KeyCode::Char('q')
    ||| (key.code == KeyCode::Char('c') || key.code == KeyCode::Char('C')) && modifier_bits(
        key.modifiers,
    ) == CONTROL_BITS
}

/// The states in which the user types text, and which keep their error
/// message when a key arrives.
pub open spec fn is_input_state(s: AppState) -> bool {
    ||| s == AppState::AskingDownloadDir
    ||| s == AppState::EditingSetting
    ||| s == AppState::AddingCollection
}

/// `app` at the start of handling a key: no pending action, no download
/// status unless a download runs, no error message outside input states.
pub open spec fn cleared(app: App) -> App {
    App {
        pending_action: None,
        download_status: if app.is_downloading {
            app.download_status
        } else {
            None
        },
        error_message: if is_input_state(app.current_state) {
            app.error_message
        } else {
            None
        },
        ..app
    }
}

/// What `update` needs of the state it starts from: the steps that would
/// overflow, or insert a character at a byte offset of an input that is not
/// a character boundary (where `String::insert` panics), are left out.
pub open spec fn update_requires(app: App, key: KeyEvent) -> bool {
    &&& (app.current_state == AppState::SettingsView && key.code == KeyCode::Down)
        ==> app.selected_setting_index < usize::MAX
    &&& (key.code is Char && !is_quit_key(key) && (app.current_state == AppState::AskingDownloadDir
        || app.current_state == AppState::EditingSetting)) ==> char_at_byte(
        app.editing_setting_input@,
        app.cursor_position as int,
    ) is Some
    &&& (key.code is Char && !is_quit_key(key) && app.current_state == AppState::AddingCollection)
        ==> char_at_byte(app.add_collection_input@, app.add_collection_cursor_pos as int) is Some
}

/// `post` is `pre` with the error message set to `msg`.
pub open spec fn reports(pre: App, post: App, msg: Seq<char>) -> bool {
    &&& post.error_message matches Some(e) && e@ == msg
    &&& post == App { error_message: post.error_message, ..pre }
}

/// `post` is `pre` with `action` pending and the download status set to `status`.
pub open spec fn queues(pre: App, post: App, action: UpdateAction, status: Seq<char>) -> bool {
    &&& post.download_status matches Some(s) && s@ == status
    &&& post == App { pending_action: Some(action), download_status: post.download_status, ..pre }
}

/// `post` is `pre` switched to asking for the download directory, with an
/// empty input and the cursor at its start.
pub open spec fn asks_for_dir(pre: App, post: App) -> bool {
    &&& post.editing_setting_input@.len() == 0
    &&& post == App {
        current_state: AppState::AskingDownloadDir,
        editing_setting_input: post.editing_setting_input,
        cursor_position: 0,
        ..pre
    }
}

/// `post` is `pre` with the download of `action` asked for: queued when the
/// download directory is set, else the directory is asked for.
pub open spec fn requests_download(pre: App, post: App, action: DownloadAction, status: Seq<char>) -> bool {
    if pre.settings.download_directory is None {
        asks_for_dir(pre, post)
    } else {
        queues(pre, post, UpdateAction::StartDownload(action), status)
    }
}

/// `post` is `pre` with `sel` as collection selection.
pub open spec fn collection_selected(pre: App, post: App, sel: Option<usize>) -> bool {
    post == App { collection_list_state: ListSelection { selected: sel }, ..pre }
}

/// `post` is `pre` with `sel` as item selection.
pub open spec fn item_selected(pre: App, post: App, sel: Option<usize>) -> bool {
    post == App { item_list_state: ListSelection { selected: sel }, ..pre }
}

/// `post` is `pre` with `sel` as file selection.
pub open spec fn file_selected(pre: App, post: App, sel: Option<usize>) -> bool {
    post == App { file_list_state: ListSelection { selected: sel }, ..pre }
}

/// Enter on a collection: its items are to be fetched and the item pane takes focus.
pub open spec fn loads_collection(pre: App, post: App, name: String) -> bool {
    &&& post.items@.len() == 0
    &&& post == App {
        current_collection_name: Some(name),
        items: post.items,
        item_list_state: ListSelection { selected: None },
        is_loading: true,
        pending_action: Some(UpdateAction::FetchCollectionItems(name)),
        active_pane: ActivePane::Items,
        ..pre
    }
}

/// Delete on the selected collection `name`: it leaves the favourites, the
/// settings are to be saved, and the item list is emptied when it showed
/// that collection.
pub open spec fn removes_collection(pre: App, post: App, name: String) -> bool {
    let i = pre.collection_list_state.selected->0;
    let fav = post.settings.favorite_collections;
    let mid = App {
        pending_action: Some(UpdateAction::SaveSettings),
        ..with_favorites(pre, fav, ListSelection { selected: selection_after_removal(i, fav@.len()) })
    };
    &&& fav@ == pre.settings.favorite_collections@.remove(i as int)
    &&& if pre.current_collection_name matches Some(c) && c@ == name@ {
        &&& post.items@.len() == 0
        &&& post == App {
            items: post.items,
            item_list_state: ListSelection { selected: None },
            current_collection_name: None,
            total_items_found: None,
            ..mid
        }
    } else {
        post == mid
    }
}

/// A key in the collections pane.
pub open spec fn collections_pane_step(pre: App, key: KeyEvent, post: App) -> bool {
    let count = pre.settings.favorite_collections@.len();
    let sel = pre.collection_list_state.selected;
    match key.code {
        KeyCode::Down => collection_selected(pre, post, next_position(sel, count)),
        KeyCode::Up => collection_selected(pre, post, previous_position(sel, count)),
        KeyCode::Enter => match selected_collection(pre) {
            Some(name) => loads_collection(pre, post, name),
            None => post == pre,
        },
        KeyCode::Char('a') => {
            &&& post.add_collection_input@.len() == 0
            &&& post == App {
                current_state: AppState::AddingCollection,
                add_collection_input: post.add_collection_input,
                add_collection_cursor_pos: 0,
                ..pre
            }
        },
        KeyCode::Delete | KeyCode::Backspace => match selected_collection(pre) {
            Some(name) => removes_collection(pre, post, name),
            None => post == pre,
        },
        KeyCode::Char('d') | KeyCode::Char('b') => match selected_collection(pre) {
            Some(name) => requests_download(
                pre,
                post,
                DownloadAction::Collection(name),
                "Queueing download for collection: "@ + name@,
            ),
            None => reports(pre, post, "Select a collection to download."@),
        },
        _ => post == pre,
    }
}

/// Enter on an item: its details are to be fetched and shown.
pub open spec fn views_item(pre: App, post: App, id: String) -> bool {
    post == App {
        viewing_item_id: Some(id),
        current_state: AppState::ViewingItem,
        current_item_details: None,
        file_list_state: ListSelection { selected: None },
        is_loading_details: true,
        pending_action: Some(UpdateAction::FetchItemDetails),
        ..pre
    }
}

/// A key in the items pane.
pub open spec fn items_pane_step(pre: App, key: KeyEvent, post: App) -> bool {
    let count = pre.items@.len();
    let sel = pre.item_list_state.selected;
    match key.code {
        KeyCode::Down => item_selected(pre, post, next_position(sel, count)),
        KeyCode::Up => item_selected(pre, post, previous_position(sel, count)),
        KeyCode::Enter => match sel {
            Some(i) => if i < count {
                views_item(pre, post, pre.items@[i as int].identifier)
            } else {
                post == pre
            },
            None => post == pre,
        },
        KeyCode::Char('d') => match sel {
            Some(i) => if i < count {
                let id = pre.items@[i as int].identifier;
                requests_download(
                    pre,
                    post,
                    DownloadAction::ItemAllFiles(id),
                    "Queueing download for item: "@ + id@,
                )
            } else {
                post == pre
            },
            None => reports(pre, post, "Select an item to download."@),
        },
        KeyCode::Char('b') => match pre.current_collection_name {
            Some(name) => if pre.settings.download_directory is None {
                asks_for_dir(pre, post)
            } else if count > 0 {
                queues(
                    pre,
                    post,
                    UpdateAction::StartDownload(DownloadAction::Collection(name)),
                    "Queueing bulk download for collection: "@ + name@,
                )
            } else {
                reports(pre, post, "No items listed to download."@)
            },
            None => reports(pre, post, "No collection selected to download items from."@),
        },
        _ => post == pre,
    }
}

/// A key in the browsing state: Tab switches panes, other keys go to the
/// active pane.
pub open spec fn browsing_step(pre: App, key: KeyEvent, post: App) -> bool {
    if key.code == KeyCode::Tab {
        post == App {
            active_pane: match pre.active_pane {
                ActivePane::Collections => ActivePane::Items,
                ActivePane::Items => ActivePane::Collections,
            },
            ..pre
        }
    } else {
        match pre.active_pane {
            ActivePane::Collections => collections_pane_step(pre, key, post),
            ActivePane::Items => items_pane_step(pre, key, post),
        }
    }
}

/// Typing, deleting and cursor moves in the setting input.
pub open spec fn setting_input_step(pre: App, key: KeyEvent, post: App) -> bool {
    let text = pre.editing_setting_input@;
    let pos = pre.cursor_position;
    let edited = App {
        editing_setting_input: post.editing_setting_input,
        cursor_position: post.cursor_position,
        ..pre
    };
    match key.code {
        KeyCode::Char(c) => {
            &&& post == edited
            &&& post.editing_setting_input@ == insert_at_byte(text, pos as int, c)
            &&& post.cursor_position == cursor_right(pos, post.editing_setting_input@.len())
        },
        KeyCode::Backspace => if pos == 0 {
            post == pre
        } else {
            &&& post == edited
            &&& post.editing_setting_input@ == remove_before(text, pos as nat)
            &&& post.cursor_position == cursor_left(pos, post.editing_setting_input@.len())
        },
        KeyCode::Left => {
            &&& post == App { cursor_position: post.cursor_position, ..pre }
            &&& post.cursor_position == cursor_left(pos, text.len())
        },
        KeyCode::Right => {
            &&& post == App { cursor_position: post.cursor_position, ..pre }
            &&& post.cursor_position == cursor_right(pos, text.len())
        },
        _ => post == pre,
    }
}

/// Typing, deleting and cursor moves in the add-collection input.
pub open spec fn add_input_step(pre: App, key: KeyEvent, post: App) -> bool {
    let text = pre.add_collection_input@;
    let pos = pre.add_collection_cursor_pos;
    let edited = App {
        add_collection_input: post.add_collection_input,
        add_collection_cursor_pos: post.add_collection_cursor_pos,
        ..pre
    };
    match key.code {
        KeyCode::Char(c) => {
            &&& post == edited
            &&& post.add_collection_input@ == insert_at_byte(text, pos as int, c)
            &&& post.add_collection_cursor_pos == cursor_right(pos, post.add_collection_input@.len())
        },
        KeyCode::Backspace => if pos == 0 {
            post == pre
        } else {
            &&& post == edited
            &&& post.add_collection_input@ == remove_before(text, pos as nat)
            &&& post.add_collection_cursor_pos == cursor_left(pos, post.add_collection_input@.len())
        },
        KeyCode::Left => {
            &&& post == App { add_collection_cursor_pos: post.add_collection_cursor_pos, ..pre }
            &&& post.add_collection_cursor_pos == cursor_left(pos, text.len())
        },
        KeyCode::Right => {
            &&& post == App { add_collection_cursor_pos: post.add_collection_cursor_pos, ..pre }
            &&& post.add_collection_cursor_pos == cursor_right(pos, text.len())
        },
        _ => post == pre,
    }
}

/// Whether `key` is handled by the text input (characters, Backspace, Left, Right).
pub open spec fn is_input_key(key: KeyEvent) -> bool {
    ||| key.code is Char
    ||| key.code == KeyCode::Backspace
    ||| key.code == KeyCode::Left
    ||| key.code == KeyCode::Right
}

/// A key while asking for the download directory.
pub open spec fn asking_dir_step(pre: App, key: KeyEvent, post: App) -> bool {
    let entered = trimmed(pre.editing_setting_input@);
    if key.code == KeyCode::Esc {
        &&& post.editing_setting_input@.len() == 0
        &&& post == App {
            current_state: AppState::Browsing,
            editing_setting_input: post.editing_setting_input,
            error_message: None,
            ..pre
        }
    } else if is_input_key(key) {
        setting_input_step(pre, key, post)
    } else if key.code == KeyCode::Enter {
        if entered.len() > 0 {
            &&& post.settings.download_directory matches Some(d) && d@ == entered
            &&& post.editing_setting_input@.len() == 0
            &&& post.error_message matches Some(e) && e@
                == "Download directory saved. Press 'd'/'b' again to start download."@
            &&& post == App {
                settings: Settings {
                    download_directory: post.settings.download_directory,
                    ..pre.settings
                },
                pending_action: Some(UpdateAction::SaveSettings),
                current_state: AppState::Browsing,
                editing_setting_input: post.editing_setting_input,
                error_message: post.error_message,
                ..pre
            }
        } else {
            reports(pre, post, "Download directory cannot be empty. Press Esc to cancel."@)
        }
    } else {
        post == pre
    }
}

/// A key while viewing an item.
pub open spec fn viewing_item_step(pre: App, key: KeyEvent, post: App) -> bool {
    let count = file_count(pre);
    let sel = pre.file_list_state.selected;
    match key.code {
        KeyCode::Esc => post == App {
            current_state: AppState::Browsing,
            viewing_item_id: None,
            current_item_details: None,
            file_list_state: ListSelection { selected: None },
            ..pre
        },
        KeyCode::Down => file_selected(pre, post, next_position(sel, count)),
        KeyCode::Up => file_selected(pre, post, previous_position(sel, count)),
        KeyCode::Enter | KeyCode::Char('d') => match selected_file(pre) {
            Some(f) => match pre.viewing_item_id {
                Some(id) => requests_download(
                    pre,
                    post,
                    DownloadAction::File(id, f),
                    "Queueing download for file: "@ + f.name@,
                ),
                None => post == pre,
            },
            None => reports(pre, post, "Select a file to download."@),
        },
        KeyCode::Char('b') => match pre.viewing_item_id {
            Some(id) => requests_download(
                pre,
                post,
                DownloadAction::ItemAllFiles(id),
                "Queueing download for all files in item: "@ + id@,
            ),
            None => post == pre,
        },
        _ => post == pre,
    }
}

/// A concurrency limit after Right (one more) or Left (one less, at least one);
/// an unset limit counts as one.
pub open spec fn adjusted_limit(current: Option<usize>, more: bool) -> usize {
    let c = match current {
        Some(n) => n,
        None => 1usize,
    };
    if more {
        if c == usize::MAX {
            c
        } else {
            (c + 1) as usize
        }
    } else if c <= 2 {
        1usize
    } else {
        (c - 1) as usize
    }
}

/// The index of the settings entry above `index` (wrapping to the last).
pub open spec fn setting_above(index: usize) -> usize {
    if index == 0 {
        (NUM_SETTINGS - 1) as usize
    } else {
        (index - 1) as usize
    }
}

/// `post` is `pre` with settings entry `index` selected.
pub open spec fn setting_selected(pre: App, post: App, index: usize) -> bool {
    post == App {
        selected_setting_index: index,
        settings_list_state: ListSelection { selected: Some(index) },
        ..pre
    }
}

/// `post` is `pre` with other settings.
pub open spec fn settings_changed(pre: App, post: App, settings: Settings) -> bool {
    post == App { settings: settings, ..pre }
}

/// A key in the settings view.
pub open spec fn settings_view_step(pre: App, key: KeyEvent, post: App) -> bool {
    let index = pre.selected_setting_index;
    let s = pre.settings;
    match key.code {
        KeyCode::Esc => post == App {
            current_state: AppState::Browsing,
            pending_action: Some(UpdateAction::SaveSettings),
            ..pre
        },
        KeyCode::Down => setting_selected(pre, post, ((index + 1) % (NUM_SETTINGS as int)) as usize),
        KeyCode::Up => setting_selected(pre, post, setting_above(index)),
        KeyCode::Right | KeyCode::Left => {
            let more = key.code == KeyCode::Right;
            if index == 1 {
                settings_changed(pre, post, Settings { download_mode: toggled_mode(s.download_mode), ..s })
            } else if index == 2 {
                settings_changed(
                    pre,
                    post,
                    Settings {
                        max_concurrent_downloads: Some(adjusted_limit(s.max_concurrent_downloads, more)),
                        ..s
                    },
                )
            } else if index == 3 {
                settings_changed(
                    pre,
                    post,
                    Settings {
                        max_concurrent_collections: Some(
                            adjusted_limit(s.max_concurrent_collections, more),
                        ),
                        ..s
                    },
                )
            } else {
                post == pre
            }
        },
        KeyCode::Enter => if index == 0 {
            &&& post.editing_setting_input@ == match s.download_directory {
                Some(d) => d@,
                None => Seq::<char>::empty(),
            }
            &&& post.cursor_position == byte_len(post.editing_setting_input@) as usize
            &&& post == App {
                current_state: AppState::EditingSetting,
                editing_setting_input: post.editing_setting_input,
                cursor_position: post.cursor_position,
                ..pre
            }
        } else {
            post == pre
        },
        _ => post == pre,
    }
}

/// A key while editing a setting value.
pub open spec fn editing_setting_step(pre: App, key: KeyEvent, post: App) -> bool {
    let edited = trimmed(pre.editing_setting_input@);
    if key.code == KeyCode::Esc || key.code == KeyCode::Enter {
        &&& post.editing_setting_input@.len() == 0
        &&& post == App {
            settings: post.settings,
            current_state: AppState::SettingsView,
            editing_setting_input: post.editing_setting_input,
            error_message: None,
            ..pre
        }
        &&& if key.code == KeyCode::Enter && pre.selected_setting_index == 0 {
            &&& post.settings == Settings {
                download_directory: post.settings.download_directory,
                ..pre.settings
            }
            &&& if edited.len() == 0 {
                post.settings.download_directory is None
            } else {
                post.settings.download_directory matches Some(d) && d@ == edited
            }
        } else {
            post.settings == pre.settings
        }
    } else if is_input_key(key) {
        setting_input_step(pre, key, post)
    } else {
        post == pre
    }
}

/// A key while adding a collection.
pub open spec fn adding_collection_step(pre: App, key: KeyEvent, post: App) -> bool {
    let id = trimmed(pre.add_collection_input@);
    let mid = with_favorites(pre, post.settings.favorite_collections, post.collection_list_state);
    if key.code == KeyCode::Esc {
        &&& post.add_collection_input@.len() == 0
        &&& post == App {
            current_state: AppState::Browsing,
            add_collection_input: post.add_collection_input,
            error_message: None,
            ..pre
        }
    } else if is_input_key(key) {
        add_input_step(pre, key, post)
    } else if key.code == KeyCode::Enter {
        if id.len() > 0 {
            &&& if adds_favorite(pre.settings.favorite_collections@, id) {
                favorite_added(pre, mid, trimmed(id))
            } else {
                mid == pre
            }
            &&& post.add_collection_input@.len() == 0
            &&& post == App {
                pending_action: Some(UpdateAction::SaveSettings),
                current_state: AppState::Browsing,
                add_collection_input: post.add_collection_input,
                ..mid
            }
        } else {
            reports(pre, post, "Collection identifier cannot be empty. Press Esc to cancel."@)
        }
    } else {
        post == pre
    }
}

/// A key handled by the handler of the current state.
pub open spec fn state_step(pre: App, key: KeyEvent, post: App) -> bool {
    match pre.current_state {
        AppState::Browsing => browsing_step(pre, key, post),
        AppState::AskingDownloadDir => asking_dir_step(pre, key, post),
        AppState::ViewingItem => viewing_item_step(pre, key, post),
        AppState::SettingsView => settings_view_step(pre, key, post),
        AppState::EditingSetting => editing_setting_step(pre, key, post),
        AppState::AddingCollection => adding_collection_step(pre, key, post),
        AppState::Downloading => post == pre,
    }
}

/// How `update` takes the application from `pre` to `post` on `key`,
/// returning `action`: quit keys quit, `s` opens the settings from browsing
/// or the item view, and other keys go to the handler of the state.
pub open spec fn update_step(pre: App, key: KeyEvent, post: App, action: Option<UpdateAction>) -> bool {
    let c = cleared(pre);
    if is_quit_key(key) || (key.code == KeyCode::Esc && pre.current_state == AppState::Browsing) {
        post == quit_app(c) && action is None
    } else if key.code == KeyCode::Char('s') && (pre.current_state == AppState::Browsing
        || pre.current_state == AppState::ViewingItem) {
        &&& post == App {
            current_state: AppState::SettingsView,
            settings_list_state: ListSelection { selected: Some(pre.selected_setting_index) },
            ..c
        }
        &&& action is None
    } else {
        state_step(c, key, post) && action == post.pending_action
    }
}

// ---------------------------------------------------------------------------
// Implementation
// ---------------------------------------------------------------------------

/// Handle key events based on the current application state.
/// Returns an optional `UpdateAction` to be performed by the main loop.
pub fn update(app: &mut App, key_event: KeyEvent) -> (action: Option<UpdateAction>)
    requires
        update_requires(*old(app), key_event),
    ensures
        update_step(*old(app), key_event, *final(app), action),
{
    app.pending_action = None;
    if !app.is_downloading {
        app.download_status = None;
    }
    match app.current_state {
        AppState::AskingDownloadDir | AppState::EditingSetting | AppState::AddingCollection => {},
        _ => app.error_message = None,
    }
    assert(*app == cleared(*old(app)));
    match key_event.code {
        KeyCode::Char('q') => {
            app.quit();
            return None;
        },
        KeyCode::Char('c') if key_event.modifiers.bits() == CONTROL_BITS => {
            app.quit();
            return None;
        },
        KeyCode::Char('C') if key_event.modifiers.bits() == CONTROL_BITS => {
            app.quit();
            return None;
        },
        KeyCode::Char('s') => {
            match app.current_state {
                AppState::Browsing | AppState::ViewingItem => {
                    app.current_state = AppState::SettingsView;
                    app.settings_list_state.select(Some(app.selected_setting_index));
                    return None;
                },
                _ => {},
            }
        },
        KeyCode::Esc => {
            match app.current_state {
                AppState::Browsing => {
                    app.quit();
                    return None;
                },
                _ => {},
            }
        },
        _ => {},
    }
    match app.current_state {
        AppState::Browsing => handle_browsing_input(app, key_event),
        AppState::AskingDownloadDir => handle_asking_download_dir_input(app, key_event),
        AppState::ViewingItem => handle_viewing_item_input(app, key_event),
        AppState::SettingsView => handle_settings_view_input(app, key_event),
        AppState::EditingSetting => handle_editing_setting_input(app, key_event),
        AppState::AddingCollection => handle_adding_collection_input(app, key_event),
        AppState::Downloading => {},
    }
    clone_action(&app.pending_action)
}

/// Handles input when in the main browsing state: Tab switches panes, other
/// keys go to the active pane.
fn handle_browsing_input(app: &mut App, key_event: KeyEvent)
    ensures
        browsing_step(*old(app), key_event, *final(app)),
{
    if key_event.code == KeyCode::Tab {
        app.active_pane = match app.active_pane {
            ActivePane::Collections => ActivePane::Items,
            ActivePane::Items => ActivePane::Collections,
        };
        return;
    }
    match app.active_pane {
        ActivePane::Collections => handle_collections_pane_input(app, key_event),
        ActivePane::Items => handle_items_pane_input(app, key_event),
    }
}

/// Switches to asking for the download directory.
fn ask_for_download_dir(app: &mut App)
    ensures
        asks_for_dir(*old(app), *final(app)),
{
    app.current_state = AppState::AskingDownloadDir;
    app.editing_setting_input = String::new();
    app.cursor_position = 0;
}

/// Handles key events when the Collections pane is active.
fn handle_collections_pane_input(app: &mut App, key_event: KeyEvent)
    ensures
        collections_pane_step(*old(app), key_event, *final(app)),
{
    match key_event.code {
        KeyCode::Down => app.select_next_collection(),
        KeyCode::Up => app.select_previous_collection(),
        KeyCode::Enter => {
            if let Some(collection_name) = app.get_selected_collection() {
                let collection_name = collection_name.clone();
                app.current_collection_name = Some(collection_name.clone());
                app.items = Vec::new();
                app.item_list_state.select(None);
                app.is_loading = true;
                app.pending_action = Some(UpdateAction::FetchCollectionItems(collection_name));
                app.active_pane = ActivePane::Items;
            }
        },
        KeyCode::Char('a') => {
            app.current_state = AppState::AddingCollection;
            app.add_collection_input = String::new();
            app.add_collection_cursor_pos = 0;
        },
        KeyCode::Delete | KeyCode::Backspace => {
            if let Some(selected_collection) = app.get_selected_collection() {
                let selected_collection = selected_collection.clone();
                if app.remove_selected_collection() {
                    app.pending_action = Some(UpdateAction::SaveSettings);
                    let viewing_removed = match &app.current_collection_name {
                        Some(c) => same_text(c, &selected_collection),
                        None => false,
                    };
                    if viewing_removed {
                        app.items = Vec::new();
                        app.item_list_state.select(None);
                        app.current_collection_name = None;
                        app.total_items_found = None;
                    }
                }
            }
        },
        KeyCode::Char('d') | KeyCode::Char('b') => {
            if let Some(collection_name) = app.get_selected_collection() {
                let collection_name = collection_name.clone();
                if app.settings.download_directory.is_none() {
                    ask_for_download_dir(app);
                } else {
                    let status = concat_text("Queueing download for collection: ", collection_name.as_str());
                    app.pending_action = Some(
                        UpdateAction::StartDownload(DownloadAction::Collection(collection_name)),
                    );
                    app.download_status = Some(status);
                }
            } else {
                app.error_message = Some(String::from_str("Select a collection to download."));
            }
        },
        _ => {},
    }
}

/// Handles key events when the Items pane is active.
fn handle_items_pane_input(app: &mut App, key_event: KeyEvent)
    ensures
        items_pane_step(*old(app), key_event, *final(app)),
{
    match key_event.code {
        KeyCode::Down => app.select_next_item(),
        KeyCode::Up => app.select_previous_item(),
        KeyCode::Enter => {
            if let Some(selected_index) = app.item_list_state.selected() {
                if selected_index < app.items.len() {
                    let id = app.items[selected_index].identifier.clone();
                    app.viewing_item_id = Some(id);
                    app.current_state = AppState::ViewingItem;
                    app.current_item_details = None;
                    app.file_list_state = ListSelection::new();
                    app.is_loading_details = true;
                    app.pending_action = Some(UpdateAction::FetchItemDetails);
                }
            }
        },
        KeyCode::Char('d') => {
            if let Some(selected_index) = app.item_list_state.selected() {
                if selected_index < app.items.len() {
                    let id = app.items[selected_index].identifier.clone();
                    if app.settings.download_directory.is_none() {
                        ask_for_download_dir(app);
                    } else {
                        let status = concat_text("Queueing download for item: ", id.as_str());
                        app.pending_action = Some(UpdateAction::StartDownload(DownloadAction::ItemAllFiles(id)));
                        app.download_status = Some(status);
                    }
                }
            } else {
                app.error_message = Some(String::from_str("Select an item to download."));
            }
        },
        KeyCode::Char('b') => {
            match &app.current_collection_name {
                Some(collection_name) => {
                    let collection_name = collection_name.clone();
                    if app.settings.download_directory.is_none() {
                        ask_for_download_dir(app);
                    } else if app.items.len() > 0 {
                        let status = concat_text(
                            "Queueing bulk download for collection: ",
                            collection_name.as_str(),
                        );
                        app.pending_action = Some(
                            UpdateAction::StartDownload(DownloadAction::Collection(collection_name)),
                        );
                        app.download_status = Some(status);
                    } else {
                        app.error_message = Some(String::from_str("No items listed to download."));
                    }
                },
                None => {
                    app.error_message = Some(
                        String::from_str("No collection selected to download items from."),
                    );
                },
            }
        },
        _ => {},
    }
}

/// Typing, deleting and cursor moves in the setting input.
fn handle_setting_input_key(app: &mut App, key_event: KeyEvent)
    requires
        is_input_key(key_event),
        key_event.code is Char ==> char_at_byte(old(app).editing_setting_input@, old(app).cursor_position as int) is Some,
    ensures
        setting_input_step(*old(app), key_event, *final(app)),
{
    match key_event.code {
        KeyCode::Char(to_insert) => app.enter_char_edit_setting(to_insert),
        KeyCode::Backspace => app.delete_char_edit_setting(),
        KeyCode::Left => app.move_cursor_left_edit_setting(),
        KeyCode::Right => app.move_cursor_right_edit_setting(),
        _ => {},
    }
}

/// Typing, deleting and cursor moves in the add-collection input.
fn handle_add_input_key(app: &mut App, key_event: KeyEvent)
    requires
        is_input_key(key_event),
        key_event.code is Char ==> char_at_byte(old(app).add_collection_input@, old(app).add_collection_cursor_pos as int) is Some,
    ensures
        add_input_step(*old(app), key_event, *final(app)),
{
    match key_event.code {
        KeyCode::Char(to_insert) => app.enter_char_add_collection(to_insert),
        KeyCode::Backspace => app.delete_char_add_collection(),
        KeyCode::Left => app.move_cursor_left_add_collection(),
        KeyCode::Right => app.move_cursor_right_add_collection(),
        _ => {},
    }
}

fn is_input_key_exec(key_event: KeyEvent) -> (r: bool)
    ensures
        r == is_input_key(key_event),
{
    match key_event.code {
        KeyCode::Char(_) | KeyCode::Backspace | KeyCode::Left | KeyCode::Right => true,
        _ => false,
    }
}

/// Handles input when prompting for the download directory.
fn handle_asking_download_dir_input(app: &mut App, key_event: KeyEvent)
    requires
        key_event.code is Char ==> char_at_byte(old(app).editing_setting_input@, old(app).cursor_position as int) is Some,
    ensures
        asking_dir_step(*old(app), key_event, *final(app)),
{
    if key_event.code == KeyCode::Esc {
        app.current_state = AppState::Browsing;
        app.editing_setting_input = String::new();
        app.error_message = None;
    } else if is_input_key_exec(key_event) {
        handle_setting_input_key(app, key_event);
    } else if key_event.code == KeyCode::Enter {
        let entered_path = trim(app.editing_setting_input.as_str());
        if char_count(&entered_path) > 0 {
            app.settings.download_directory = Some(entered_path);
            app.pending_action = Some(UpdateAction::SaveSettings);
            app.current_state = AppState::Browsing;
            app.editing_setting_input = String::new();
            app.error_message = Some(
                String::from_str("Download directory saved. Press 'd'/'b' again to start download."),
            );
        } else {
            app.error_message = Some(
                String::from_str("Download directory cannot be empty. Press Esc to cancel."),
            );
        }
    }
}

/// Handles input when viewing item details.
fn handle_viewing_item_input(app: &mut App, key_event: KeyEvent)
    ensures
        viewing_item_step(*old(app), key_event, *final(app)),
{
    match key_event.code {
        KeyCode::Esc => {
            app.current_state = AppState::Browsing;
            app.viewing_item_id = None;
            app.current_item_details = None;
            app.file_list_state = ListSelection::new();
        },
        KeyCode::Down => app.select_next_file(),
        KeyCode::Up => app.select_previous_file(),
        KeyCode::Enter | KeyCode::Char('d') => {
            if let Some(file_details) = app.get_selected_file() {
                let file_details = file_details.clone();
                if let Some(item_id) = &app.viewing_item_id {
                    let item_id = item_id.clone();
                    if app.settings.download_directory.is_none() {
                        ask_for_download_dir(app);
                    } else {
                        let status = concat_text("Queueing download for file: ", file_details.name.as_str());
                        app.pending_action = Some(
                            UpdateAction::StartDownload(DownloadAction::File(item_id, file_details)),
                        );
                        app.download_status = Some(status);
                    }
                }
            } else {
                app.error_message = Some(String::from_str("Select a file to download."));
            }
        },
        KeyCode::Char('b') => {
            if let Some(item_id) = &app.viewing_item_id {
                let item_id = item_id.clone();
                if app.settings.download_directory.is_none() {
                    ask_for_download_dir(app);
                } else {
                    let status = concat_text("Queueing download for all files in item: ", item_id.as_str());
                    app.pending_action = Some(UpdateAction::StartDownload(DownloadAction::ItemAllFiles(item_id)));
                    app.download_status = Some(status);
                }
            }
        },
        _ => {},
    }
}

/// A concurrency limit after Right (`more`) or Left.
fn adjust_limit(current: Option<usize>, more: bool) -> (r: usize)
    ensures
        r == adjusted_limit(current, more),
{
    let c = match current {
        Some(n) => n,
        None => 1,
    };
    if more {
        c.saturating_add(1)
    } else {
        let lowered = c.saturating_sub(1);
        if lowered < 1 {
            1
        } else {
            lowered
        }
    }
}

/// Handles input when viewing/editing settings.
fn handle_settings_view_input(app: &mut App, key_event: KeyEvent)
    requires
        key_event.code == KeyCode::Down ==> old(app).selected_setting_index < usize::MAX,
    ensures
        settings_view_step(*old(app), key_event, *final(app)),
{
    match key_event.code {
        KeyCode::Esc => {
            app.current_state = AppState::Browsing;
            app.pending_action = Some(UpdateAction::SaveSettings);
        },
        KeyCode::Down => {
            app.selected_setting_index = (app.selected_setting_index + 1) % NUM_SETTINGS;
            app.settings_list_state.select(Some(app.selected_setting_index));
        },
        KeyCode::Up => {
            app.selected_setting_index = if app.selected_setting_index == 0 {
                NUM_SETTINGS - 1
            } else {
                app.selected_setting_index - 1
            };
            app.settings_list_state.select(Some(app.selected_setting_index));
        },
        KeyCode::Right | KeyCode::Left => {
            let more = key_event.code == KeyCode::Right;
            if app.selected_setting_index == 1 {
                app.settings.download_mode = app.settings.download_mode.toggled();
            } else if app.selected_setting_index == 2 {
                app.settings.max_concurrent_downloads = Some(
                    adjust_limit(app.settings.max_concurrent_downloads, more),
                );
            } else if app.selected_setting_index == 3 {
                app.settings.max_concurrent_collections = Some(
                    adjust_limit(app.settings.max_concurrent_collections, more),
                );
            }
        },
        KeyCode::Enter => {
            if app.selected_setting_index == 0 {
                app.current_state = AppState::EditingSetting;
                app.editing_setting_input = match &app.settings.download_directory {
                    Some(d) => d.clone(),
                    None => String::new(),
                };
                app.cursor_position = byte_count(&app.editing_setting_input);
            }
        },
        _ => {},
    }
}

/// Handles input when actively editing a setting value (only the download
/// directory).
fn handle_editing_setting_input(app: &mut App, key_event: KeyEvent)
    requires
        key_event.code is Char ==> char_at_byte(old(app).editing_setting_input@, old(app).cursor_position as int) is Some,
    ensures
        editing_setting_step(*old(app), key_event, *final(app)),
{
    if key_event.code == KeyCode::Esc {
        app.current_state = AppState::SettingsView;
        app.editing_setting_input = String::new();
        app.error_message = None;
    } else if is_input_key_exec(key_event) {
        handle_setting_input_key(app, key_event);
    } else if key_event.code == KeyCode::Enter {
        let edited_value = trim(app.editing_setting_input.as_str());
        if app.selected_setting_index == 0 {
            app.settings.download_directory = if char_count(&edited_value) == 0 {
                None
            } else {
                Some(edited_value)
            };
        }
        app.current_state = AppState::SettingsView;
        app.editing_setting_input = String::new();
        app.error_message = None;
    }
}

/// Handles input when adding a new collection identifier.
fn handle_adding_collection_input(app: &mut App, key_event: KeyEvent)
    requires
        key_event.code is Char ==> char_at_byte(old(app).add_collection_input@, old(app).add_collection_cursor_pos as int) is Some,
    ensures
        adding_collection_step(*old(app), key_event, *final(app)),
{
    if key_event.code == KeyCode::Esc {
        app.current_state = AppState::Browsing;
        app.add_collection_input = String::new();
        app.error_message = None;
    } else if is_input_key_exec(key_event) {
        handle_add_input_key(app, key_event);
    } else if key_event.code == KeyCode::Enter {
        let identifier = trim(app.add_collection_input.as_str());
        if char_count(&identifier) > 0 {
            app.add_collection_to_favorites(identifier);
            app.pending_action = Some(UpdateAction::SaveSettings);
            app.current_state = AppState::Browsing;
            app.add_collection_input = String::new();
        } else {
            app.error_message = Some(
                String::from_str("Collection identifier cannot be empty. Press Esc to cancel."),
            );
        }
    }
}

} // verus!
