//! The application state and the operations on it that the key handlers use.
use crate::archive_api::{ArchiveDoc, FileDetails, ItemDetails};
use crate::paths::{join, join_path};
use crate::settings::{is_default_settings, Settings};
use crate::text::{
    char_at_byte,
    char_count,
    insert_at_byte,
    insert_char_at,
    remove_before,
    remove_char_before,
    same_text,
    sort_texts,
    string_le,
    trim,
    trimmed,
};
use vstd::prelude::*;
use vstd::relations::sorted_by;

verus! {

broadcast use vstd::seq_lib::group_to_multiset_ensures;

/// Represents the different states or modes the application can be in.
#[derive(Clone, Copy, Debug, PartialEq, Eq, Structural)]
pub enum AppState {
    /// Normal operation: browsing collections and items.
    Browsing,
    /// Prompting the user to enter the download directory.
    AskingDownloadDir,
    /// Viewing the details of a selected item.
    ViewingItem,
    /// Currently downloading an item.
    Downloading,
    /// Viewing/editing application settings.
    SettingsView,
    /// Actively editing a specific setting value.
    EditingSetting,
    /// Adding a new collection to favorites.
    AddingCollection,
}

/// Indicates which pane is currently active/focused.
#[derive(Clone, Copy, Debug, PartialEq, Eq, Structural)]
pub enum ActivePane {
    Collections,
    Items,
}

/// Which entry of a list is selected, if any.
#[derive(Clone, Copy, Debug, PartialEq, Eq, Structural)]
pub struct ListSelection {
    pub selected: Option<usize>,
}

impl ListSelection {
    /// A selection with nothing selected.
    pub fn new() -> (r: ListSelection)
        ensures
            r.selected is None,
    {
        ListSelection { selected: None }
    }

    /// The selected index.
    pub fn selected(&self) -> (r: Option<usize>)
        ensures
            r == self.selected,
    {
        self.selected
    }

    /// Selects `index` (or nothing).
    pub fn select(&mut self, index: Option<usize>)
        ensures
            final(self).selected == index,
    {
        self.selected = index;
    }
}

impl Default for ListSelection {
    fn default() -> (r: ListSelection)
        ensures
            r.selected is None,
    {
        ListSelection::new()
    }
}

/// The selection after moving down in a list of `count` entries: wraps from
/// the last entry to the first; with nothing selected the first is chosen;
/// an empty list keeps the selection.
pub open spec fn next_position(sel: Option<usize>, count: nat) -> Option<usize> {
    if count == 0 {
        sel
    } else {
        match sel {
            Some(i) => if i >= count - 1 {
                Some(0usize)
            } else {
                Some((i + 1) as usize)
            },
            None => Some(0usize),
        }
    }
}

/// The selection after moving up in a list of `count` entries: wraps from
/// the first entry to the last; with nothing selected the first is chosen;
/// an empty list keeps the selection.
pub open spec fn previous_position(sel: Option<usize>, count: nat) -> Option<usize> {
    if count == 0 {
        sel
    } else {
        match sel {
            Some(i) => if i == 0 {
                Some((count - 1) as usize)
            } else {
                Some((i - 1) as usize)
            },
            None => Some(0usize),
        }
    }
}

fn next_position_exec(sel: Option<usize>, count: usize) -> (r: Option<usize>)
    ensures
        r == next_position(sel, count as nat),
{
    if count == 0 {
        return sel;
    }
    match sel {
        Some(i) => if i >= count - 1 {
            Some(0)
        } else {
            Some(i + 1)
        },
        None => Some(0),
    }
}

fn previous_position_exec(sel: Option<usize>, count: usize) -> (r: Option<usize>)
    ensures
        r == previous_position(sel, count as nat),
{
    if count == 0 {
        return sel;
    }
    match sel {
        Some(i) => if i == 0 {
            Some(count - 1)
        } else {
            Some(i - 1)
        },
        None => Some(0),
    }
}

/// `pos` limited to `0..=len`.
pub open spec fn clamp_to(pos: int, len: nat) -> int {
    if pos < 0 {
        0
    } else if pos <= len {
        pos
    } else {
        len as int
    }
}

/// The cursor after moving left in a text of `len` characters.
pub open spec fn cursor_left(pos: usize, len: nat) -> int {
    clamp_to(pos - 1, len)
}

/// The cursor after moving right in a text of `len` characters (the step
/// saturates at the largest `usize`).
pub open spec fn cursor_right(pos: usize, len: nat) -> int {
    clamp_to(if pos == usize::MAX { pos as int } else { pos + 1 }, len)
}

/// Actions that the main loop should perform based on user input.
#[derive(Debug)]
pub enum UpdateAction {
    /// Fetch items for a specific collection identifier.
    FetchCollectionItems(String),
    /// Fetch the details of the item being viewed.
    FetchItemDetails,
    /// Start a download.
    StartDownload(DownloadAction),
    /// Save the current settings.
    SaveSettings,
}

/// Specifies what to download.
#[derive(Debug)]
pub enum DownloadAction {
    /// Download all files for a specific item.
    ItemAllFiles(String),
    /// Download a single specific file of an item.
    File(String, FileDetails),
    /// Download all items for a specific collection identifier.
    Collection(String),
}

impl Clone for DownloadAction {
    fn clone(&self) -> (r: Self)
        ensures
            r == *self,
    {
        match self {
            DownloadAction::ItemAllFiles(id) => DownloadAction::ItemAllFiles(id.clone()),
            DownloadAction::File(id, f) => DownloadAction::File(id.clone(), f.clone()),
            DownloadAction::Collection(c) => DownloadAction::Collection(c.clone()),
        }
    }
}

impl Clone for UpdateAction {
    fn clone(&self) -> (r: Self)
        ensures
            r == *self,
    {
        match self {
            UpdateAction::FetchCollectionItems(c) => UpdateAction::FetchCollectionItems(c.clone()),
            UpdateAction::FetchItemDetails => UpdateAction::FetchItemDetails,
            UpdateAction::StartDownload(d) => UpdateAction::StartDownload(d.clone()),
            UpdateAction::SaveSettings => UpdateAction::SaveSettings,
        }
    }
}

/// A copy of an optional action.
pub fn clone_action(a: &Option<UpdateAction>) -> (r: Option<UpdateAction>)
    ensures
        r == *a,
{
    match a {
        Some(x) => Some(x.clone()),
        None => None,
    }
}

/// Represents progress updates sent from download tasks.
#[derive(Debug, Clone)]
pub enum DownloadProgress {
    /// Information about the collection download starting (total items).
    CollectionInfo(usize),
    /// Started processing an item.
    ItemStarted(String),
    /// Determined the number of files for an item.
    ItemFileCount(usize),
    /// A chunk of bytes was downloaded for a file.
    BytesDownloaded(u64),
    /// A single file download completed successfully (file name).
    FileCompleted(String),
    /// An item download finished: identifier, and whether all files succeeded.
    ItemCompleted(String, bool),
    /// The entire collection download attempt finished: items attempted, items failed.
    CollectionCompleted(usize, usize),
    /// An error occurred during download.
    Error(String),
    /// A general status message.
    Status(String),
}

/// Application state
pub struct App {
    /// Current application state/mode.
    pub current_state: AppState,
    /// Which pane has focus in the Browsing state.
    pub active_pane: ActivePane,
    /// Loaded application settings.
    pub settings: Settings,
    /// Is the application running?
    pub running: bool,
    /// Items fetched from the API for the currently selected collection
    pub items: Vec<ArchiveDoc>,
    /// Selection in the collection list
    pub collection_list_state: ListSelection,
    /// Selection in the item list
    pub item_list_state: ListSelection,
    /// Optional error message to display
    pub error_message: Option<String>,
    /// Flag to indicate if we are currently fetching items for a collection
    pub is_loading: bool,
    /// Total number of items found in the last item search for the selected collection
    pub total_items_found: Option<usize>,
    /// Identifier of the item currently being viewed (if any)
    pub viewing_item_id: Option<String>,
    /// Details of the item currently being viewed
    pub current_item_details: Option<ItemDetails>,
    /// Selection in the file list when viewing an item
    pub file_list_state: ListSelection,
    /// Flag indicating if item details are being loaded
    pub is_loading_details: bool,
    /// Name of the collection currently selected and being browsed
    pub current_collection_name: Option<String>,
    /// Flag indicating if a download is in progress
    pub is_downloading: bool,
    /// Status message for the current or last download
    pub download_status: Option<String>,
    /// Action requested by the user to be performed in the main loop
    pub pending_action: Option<UpdateAction>,
    /// Total items to download in the current bulk operation (if applicable)
    pub total_items_to_download: Option<usize>,
    /// Number of items completed in the current bulk operation
    pub items_downloaded_count: usize,
    /// Total files to download across all items
    pub total_files_to_download: Option<usize>,
    /// Number of files completed in the current bulk operation
    pub files_downloaded_count: usize,
    /// Total bytes downloaded in the current operation
    pub total_bytes_downloaded: u64,
    /// Selection in the settings list
    pub settings_list_state: ListSelection,
    /// Index of the currently selected setting (for editing)
    pub selected_setting_index: usize,
    /// Buffer for editing a setting value (Download Dir and AskingDownloadDir)
    pub editing_setting_input: String,
    /// Cursor position in `editing_setting_input`: moves and Backspace count
    /// characters, typing inserts at this byte offset, and Enter on a setting
    /// puts it at the byte length
    pub cursor_position: usize,
    /// Buffer for adding a new collection
    pub add_collection_input: String,
    /// Cursor position in `add_collection_input`: moves and Backspace count
    /// characters, typing inserts at this byte offset
    pub add_collection_cursor_pos: usize,
}

/// The state of a freshly constructed application.
pub open spec fn is_initial_app(app: App) -> bool {
    &&& app.current_state == AppState::Browsing
    &&& app.active_pane == ActivePane::Collections
    &&& is_default_settings(app.settings)
    &&& app.running
    &&& app.items@.len() == 0
    &&& app.collection_list_state.selected is None
    &&& app.item_list_state.selected is None
    &&& app.error_message is None
    &&& !app.is_loading
    &&& app.total_items_found is None
    &&& app.viewing_item_id is None
    &&& app.current_item_details is None
    &&& app.file_list_state.selected is None
    &&& !app.is_loading_details
    &&& app.current_collection_name is None
    &&& !app.is_downloading
    &&& app.download_status is None
    &&& app.pending_action is None
    &&& app.total_items_to_download is None
    &&& app.items_downloaded_count == 0
    &&& app.total_files_to_download is None
    &&& app.files_downloaded_count == 0
    &&& app.total_bytes_downloaded == 0
    &&& app.settings_list_state.selected is None
    &&& app.selected_setting_index == 0
    &&& app.editing_setting_input@.len() == 0
    &&& app.cursor_position == 0
    &&& app.add_collection_input@.len() == 0
    &&& app.add_collection_cursor_pos == 0
}

/// `app` with another cursor position in the setting input.
pub open spec fn with_cursor(app: App, pos: usize) -> App {
    App { cursor_position: pos, ..app }
}

/// `app` with another setting input and cursor.
pub open spec fn with_edit_input(app: App, input: String, pos: usize) -> App {
    App { editing_setting_input: input, cursor_position: pos, ..app }
}

/// `app` with another cursor position in the add-collection input.
pub open spec fn with_add_cursor(app: App, pos: usize) -> App {
    App { add_collection_cursor_pos: pos, ..app }
}

/// `app` with another add-collection input and cursor.
pub open spec fn with_add_input(app: App, input: String, pos: usize) -> App {
    App { add_collection_input: input, add_collection_cursor_pos: pos, ..app }
}

/// `app` with another collection selection.
pub open spec fn with_collection_selection(app: App, sel: ListSelection) -> App {
    App { collection_list_state: sel, ..app }
}

/// `app` with another item selection.
pub open spec fn with_item_selection(app: App, sel: ListSelection) -> App {
    App { item_list_state: sel, ..app }
}

/// `app` with another file selection.
pub open spec fn with_file_selection(app: App, sel: ListSelection) -> App {
    App { file_list_state: sel, ..app }
}

/// `app` with another favourites list and collection selection.
pub open spec fn with_favorites(app: App, fav: Vec<String>, sel: ListSelection) -> App {
    App {
        settings: Settings { favorite_collections: fav, ..app.settings },
        collection_list_state: sel,
        ..app
    }
}

/// `app` with other settings and collection selection.
pub open spec fn with_settings(app: App, settings: Settings, sel: ListSelection) -> App {
    App { settings: settings, collection_list_state: sel, ..app }
}

/// `app` after quitting.
pub open spec fn quit_app(app: App) -> App {
    App { running: false, ..app }
}

/// The collection selection after loading `settings`: the first favourite, if any.
pub open spec fn initial_collection_selection(settings: Settings) -> Option<usize> {
    if settings.favorite_collections@.len() > 0 {
        Some(0usize)
    } else {
        None
    }
}

/// The text of an optional string.
pub open spec fn text_of(s: Option<String>) -> Option<Seq<char>> {
    match s {
        Some(t) => Some(t@),
        None => None,
    }
}

/// The directory that the files of the viewed item are downloaded to: the
/// download directory joined with the item identifier.
pub open spec fn item_download_path(app: App) -> Option<Seq<char>> {
    match (app.settings.download_directory, app.viewing_item_id) {
        (Some(base), Some(item)) => Some(join_path(base@, item@)),
        _ => None,
    }
}

/// The path that `file` of the viewed item is downloaded to: download
/// directory, item identifier, file name.
pub open spec fn file_download_path(app: App, file: FileDetails) -> Option<Seq<char>> {
    match (app.settings.download_directory, app.viewing_item_id) {
        (Some(base), Some(item)) => Some(join_path(join_path(base@, item@), file.name@)),
        _ => None,
    }
}

/// The favourite collection under the collection selection, if any.
pub open spec fn selected_collection(app: App) -> Option<String> {
    match app.collection_list_state.selected {
        Some(i) => if i < app.settings.favorite_collections@.len() {
            Some(app.settings.favorite_collections@[i as int])
        } else {
            None
        },
        None => None,
    }
}

/// Number of files of the item being viewed (none when no details are loaded).
pub open spec fn file_count(app: App) -> nat {
    match app.current_item_details {
        Some(d) => d.files@.len(),
        None => 0,
    }
}

/// The file under the file selection, if any.
pub open spec fn selected_file(app: App) -> Option<FileDetails> {
    match (app.file_list_state.selected, app.current_item_details) {
        (Some(i), Some(d)) => if i < d.files@.len() {
            Some(d.files@[i as int])
        } else {
            None
        },
        _ => None,
    }
}

/// The selection after removing entry `index` from a list that is left with
/// `remaining` entries: the same index, or the new last entry, or nothing.
pub open spec fn selection_after_removal(index: usize, remaining: nat) -> Option<usize> {
    if remaining == 0 {
        None
    } else if index >= remaining {
        Some((remaining - 1) as usize)
    } else {
        Some(index)
    }
}

/// Whether `text` is among `list`.
pub open spec fn has_text(list: Seq<String>, text: Seq<char>) -> bool {
    exists|k: int| 0 <= k < list.len() && (#[trigger] list[k])@ == text
}

/// Whether `identifier` is added by `add_collection_to_favorites`: its trimmed
/// text is not empty and not yet a favourite.
pub open spec fn adds_favorite(list: Seq<String>, identifier: Seq<char>) -> bool {
    trimmed(identifier).len() > 0 && !has_text(list, trimmed(identifier))
}

/// `post` holds the favourites of `pre` with one more entry whose text is
/// `text`, in sorted order, with that entry selected.
pub open spec fn favorite_added(pre: App, post: App, text: Seq<char>) -> bool {
    let fav = post.settings.favorite_collections@;
    &&& post == with_favorites(pre, post.settings.favorite_collections, post.collection_list_state)
    &&& sorted_by(fav, string_le())
    &&& exists|x: String|
        x@ == text && fav.to_multiset() == pre.settings.favorite_collections@.to_multiset().insert(x)
    &&& post.collection_list_state.selected matches Some(p) && p < fav.len() && fav[p as int]@ == text
        && forall|j: int| 0 <= j < p ==> (#[trigger] fav[j])@ != text
}

impl App {
    /// Constructs a new instance of [`App`].
    pub fn new() -> (app: Self)
        ensures
            is_initial_app(app),
    {
        App {
            running: true,
            items: Vec::new(),
            collection_list_state: ListSelection::new(),
            item_list_state: ListSelection::new(),
            error_message: None,
            is_loading: false,
            current_state: AppState::Browsing,
            active_pane: ActivePane::Collections,
            settings: Settings::default(),
            total_items_found: None,
            viewing_item_id: None,
            current_item_details: None,
            file_list_state: ListSelection::new(),
            is_loading_details: false,
            current_collection_name: None,
            is_downloading: false,
            download_status: None,
            pending_action: None,
            total_items_to_download: None,
            items_downloaded_count: 0,
            total_files_to_download: None,
            files_downloaded_count: 0,
            total_bytes_downloaded: 0,
            settings_list_state: ListSelection::new(),
            selected_setting_index: 0,
            editing_setting_input: String::new(),
            cursor_position: 0,
            add_collection_input: String::new(),
            add_collection_cursor_pos: 0,
        }
    }

    /// Load settings into the App state, selecting the first favourite
    /// collection if there is one.
    pub fn load_settings(&mut self, settings: Settings)
        ensures
            *final(self) == with_settings(*old(self), settings, final(self).collection_list_state),
            final(self).collection_list_state.selected == initial_collection_selection(settings),
    {
        self.settings = settings;
        if self.settings.favorite_collections.len() > 0 {
            self.collection_list_state.select(Some(0));
        } else {
            self.collection_list_state.select(None);
        }
    }

    /// Handles the tick event of the terminal: nothing to do.
    pub fn tick(&self) {
    }

    /// Set running to false to quit the application.
    pub fn quit(&mut self)
        ensures
            *final(self) == quit_app(*old(self)),
    {
        self.running = false;
    }

    // --- Editing the setting input (Settings edit and AskingDownloadDir) ---

    fn clamp_cursor_edit_setting(&self, new_cursor_pos: usize) -> (r: usize)
        ensures
            r == clamp_to(new_cursor_pos as int, self.editing_setting_input@.len()),
    {
        let n = char_count(&self.editing_setting_input);
        if new_cursor_pos > n {
            n
        } else {
            new_cursor_pos
        }
    }

    pub fn move_cursor_left_edit_setting(&mut self)
        ensures
            *final(self) == with_cursor(*old(self), final(self).cursor_position),
            final(self).cursor_position == cursor_left(
                old(self).cursor_position,
                old(self).editing_setting_input@.len(),
            ),
    {
        let cursor_moved_left = self.cursor_position.saturating_sub(1);
        self.cursor_position = self.clamp_cursor_edit_setting(cursor_moved_left);
    }

    pub fn move_cursor_right_edit_setting(&mut self)
        ensures
            *final(self) == with_cursor(*old(self), final(self).cursor_position),
            final(self).cursor_position == cursor_right(
                old(self).cursor_position,
                old(self).editing_setting_input@.len(),
            ),
    {
        let cursor_moved_right = self.cursor_position.saturating_add(1);
        self.cursor_position = self.clamp_cursor_edit_setting(cursor_moved_right);
    }

    pub fn enter_char_edit_setting(&mut self, new_char: char)
        requires
            char_at_byte(old(self).editing_setting_input@, old(self).cursor_position as int) is Some,
        ensures
            *final(self) == with_edit_input(
                *old(self),
                final(self).editing_setting_input,
                final(self).cursor_position,
            ),
            final(self).editing_setting_input@ == insert_at_byte(
                old(self).editing_setting_input@,
                old(self).cursor_position as int,
                new_char,
            ),
            final(self).cursor_position == cursor_right(
                old(self).cursor_position,
                final(self).editing_setting_input@.len(),
            ),
    {
        self.editing_setting_input = insert_char_at(&self.editing_setting_input, self.cursor_position, new_char);
        self.move_cursor_right_edit_setting();
    }

    pub fn delete_char_edit_setting(&mut self)
        ensures
            old(self).cursor_position == 0 ==> *final(self) == *old(self),
            old(self).cursor_position != 0 ==> {
                &&& *final(self) == with_edit_input(
                    *old(self),
                    final(self).editing_setting_input,
                    final(self).cursor_position,
                )
                &&& final(self).editing_setting_input@ == remove_before(
                    old(self).editing_setting_input@,
                    old(self).cursor_position as nat,
                )
                &&& final(self).cursor_position == cursor_left(
                    old(self).cursor_position,
                    final(self).editing_setting_input@.len(),
                )
            },
    {
        if self.cursor_position != 0 {
            self.editing_setting_input = remove_char_before(&self.editing_setting_input, self.cursor_position);
            self.move_cursor_left_edit_setting();
        }
    }

    // --- Editing the add-collection input ---

    fn clamp_cursor_add_collection(&self, new_cursor_pos: usize) -> (r: usize)
        ensures
            r == clamp_to(new_cursor_pos as int, self.add_collection_input@.len()),
    {
        let n = char_count(&self.add_collection_input);
        if new_cursor_pos > n {
            n
        } else {
            new_cursor_pos
        }
    }

    pub fn move_cursor_left_add_collection(&mut self)
        ensures
            *final(self) == with_add_cursor(*old(self), final(self).add_collection_cursor_pos),
            final(self).add_collection_cursor_pos == cursor_left(
                old(self).add_collection_cursor_pos,
                old(self).add_collection_input@.len(),
            ),
    {
        let cursor_moved_left = self.add_collection_cursor_pos.saturating_sub(1);
        self.add_collection_cursor_pos = self.clamp_cursor_add_collection(cursor_moved_left);
    }

    pub fn move_cursor_right_add_collection(&mut self)
        ensures
            *final(self) == with_add_cursor(*old(self), final(self).add_collection_cursor_pos),
            final(self).add_collection_cursor_pos == cursor_right(
                old(self).add_collection_cursor_pos,
                old(self).add_collection_input@.len(),
            ),
    {
        let cursor_moved_right = self.add_collection_cursor_pos.saturating_add(1);
        self.add_collection_cursor_pos = self.clamp_cursor_add_collection(cursor_moved_right);
    }

    pub fn enter_char_add_collection(&mut self, new_char: char)
        requires
            char_at_byte(old(self).add_collection_input@, old(self).add_collection_cursor_pos as int) is Some,
        ensures
            *final(self) == with_add_input(
                *old(self),
                final(self).add_collection_input,
                final(self).add_collection_cursor_pos,
            ),
            final(self).add_collection_input@ == insert_at_byte(
                old(self).add_collection_input@,
                old(self).add_collection_cursor_pos as int,
                new_char,
            ),
            final(self).add_collection_cursor_pos == cursor_right(
                old(self).add_collection_cursor_pos,
                final(self).add_collection_input@.len(),
            ),
    {
        self.add_collection_input = insert_char_at(&self.add_collection_input, self.add_collection_cursor_pos, new_char);
        self.move_cursor_right_add_collection();
    }

    pub fn delete_char_add_collection(&mut self)
        ensures
            old(self).add_collection_cursor_pos == 0 ==> *final(self) == *old(self),
            old(self).add_collection_cursor_pos != 0 ==> {
                &&& *final(self) == with_add_input(
                    *old(self),
                    final(self).add_collection_input,
                    final(self).add_collection_cursor_pos,
                )
                &&& final(self).add_collection_input@ == remove_before(
                    old(self).add_collection_input@,
                    old(self).add_collection_cursor_pos as nat,
                )
                &&& final(self).add_collection_cursor_pos == cursor_left(
                    old(self).add_collection_cursor_pos,
                    final(self).add_collection_input@.len(),
                )
            },
    {
        if self.add_collection_cursor_pos != 0 {
            self.add_collection_input = remove_char_before(&self.add_collection_input, self.add_collection_cursor_pos);
            self.move_cursor_left_add_collection();
        }
    }

    // --- Collection list navigation and management ---

    /// Selects the next collection in the favorite collections list.
    pub fn select_next_collection(&mut self)
        ensures
            *final(self) == with_collection_selection(*old(self), final(self).collection_list_state),
            final(self).collection_list_state.selected == next_position(
                old(self).collection_list_state.selected,
                old(self).settings.favorite_collections@.len(),
            ),
    {
        let count = self.settings.favorite_collections.len();
        let i = next_position_exec(self.collection_list_state.selected(), count);
        self.collection_list_state.select(i);
    }

    /// Selects the previous collection in the favorite collections list.
    pub fn select_previous_collection(&mut self)
        ensures
            *final(self) == with_collection_selection(*old(self), final(self).collection_list_state),
            final(self).collection_list_state.selected == previous_position(
                old(self).collection_list_state.selected,
                old(self).settings.favorite_collections@.len(),
            ),
    {
        let count = self.settings.favorite_collections.len();
        let i = previous_position_exec(self.collection_list_state.selected(), count);
        self.collection_list_state.select(i);
    }

    /// Gets the identifier of the currently selected collection, if any.
    pub fn get_selected_collection(&self) -> (r: Option<&String>)
        ensures
            r matches Some(s) ==> selected_collection(*self) == Some(*s),
            r is None ==> selected_collection(*self) is None,
    {
        match self.collection_list_state.selected() {
            Some(index) => if index < self.settings.favorite_collections.len() {
                Some(&self.settings.favorite_collections[index])
            } else {
                None
            },
            None => None,
        }
    }

    /// Removes the currently selected collection from the favorites list.
    /// Returns true if a collection was removed, false otherwise.
    pub fn remove_selected_collection(&mut self) -> (removed: bool)
        ensures
            removed == selected_collection(*old(self)) is Some,
            !removed ==> *final(self) == *old(self),
            removed ==> {
                let i = old(self).collection_list_state.selected->0;
                &&& *final(self) == with_favorites(
                    *old(self),
                    final(self).settings.favorite_collections,
                    final(self).collection_list_state,
                )
                &&& final(self).settings.favorite_collections@ == old(
                    self,
                ).settings.favorite_collections@.remove(i as int)
                &&& final(self).collection_list_state.selected == selection_after_removal(
                    i,
                    final(self).settings.favorite_collections@.len(),
                )
            },
    {
        if let Some(index) = self.collection_list_state.selected() {
            if index < self.settings.favorite_collections.len() {
                self.settings.favorite_collections.remove(index);
                let remaining = self.settings.favorite_collections.len();
                let new_selection = if remaining == 0 {
                    None
                } else if index >= remaining {
                    Some(remaining - 1)
                } else {
                    Some(index)
                };
                self.collection_list_state.select(new_selection);
                return true;
            }
        }
        false
    }

    /// Adds a new collection identifier to the favorites list if it doesn't
    /// exist, keeps the list sorted, and selects the new entry.
    pub fn add_collection_to_favorites(&mut self, identifier: String)
        ensures
            !adds_favorite(old(self).settings.favorite_collections@, identifier@) ==> *final(self) == *old(
                self,
            ),
            adds_favorite(old(self).settings.favorite_collections@, identifier@) ==> favorite_added(
                *old(self),
                *final(self),
                trimmed(identifier@),
            ),
    {
        let trimmed_id = trim(identifier.as_str());
        if char_count(&trimmed_id) == 0 {
            return;
        }
        let n = self.settings.favorite_collections.len();
        let mut k: usize = 0;
        while k < n
            invariant
                *self == *old(self),
                trimmed_id@ == trimmed(identifier@),
                n == self.settings.favorite_collections@.len(),
                k <= n,
                forall|j: int| 0 <= j < k ==> (#[trigger] self.settings.favorite_collections@[j])@ != trimmed_id@,
            decreases n - k,
        {
            if same_text(&self.settings.favorite_collections[k], &trimmed_id) {
                assert(has_text(self.settings.favorite_collections@, trimmed_id@));
                return;
            }
            k = k + 1;
        }
        let ghost pre = *self;
        let ghost x = trimmed_id;
        self.settings.favorite_collections.push(trimmed_id.clone());
        sort_texts(&mut self.settings.favorite_collections);
        let ghost fav = self.settings.favorite_collections@;
        assert(fav.to_multiset() == pre.settings.favorite_collections@.to_multiset().insert(x));
        assert(fav.to_multiset().count(x) > 0);
        assert(fav.contains(x));
        let ghost q = choose|q: int| 0 <= q < fav.len() && fav[q] == x;
        let m = self.settings.favorite_collections.len();
        let mut p: usize = 0;
        while p < m && !same_text(&self.settings.favorite_collections[p], &trimmed_id)
            invariant
                m == fav.len(),
                self.settings.favorite_collections@ == fav,
                0 <= q < fav.len(),
                fav[q]@ == trimmed_id@,
                p <= q,
                forall|j: int| 0 <= j < p ==> (#[trigger] fav[j])@ != trimmed_id@,
            decreases m - p,
        {
            p = p + 1;
        }
        self.collection_list_state.select(Some(p));
    }

    // --- Item list navigation ---

    pub fn select_next_item(&mut self)
        ensures
            *final(self) == with_item_selection(*old(self), final(self).item_list_state),
            final(self).item_list_state.selected == next_position(
                old(self).item_list_state.selected,
                old(self).items@.len(),
            ),
    {
        let i = next_position_exec(self.item_list_state.selected(), self.items.len());
        self.item_list_state.select(i);
    }

    pub fn select_previous_item(&mut self)
        ensures
            *final(self) == with_item_selection(*old(self), final(self).item_list_state),
            final(self).item_list_state.selected == previous_position(
                old(self).item_list_state.selected,
                old(self).items@.len(),
            ),
    {
        let i = previous_position_exec(self.item_list_state.selected(), self.items.len());
        self.item_list_state.select(i);
    }

    // --- File list navigation ---

    fn file_count_exec(&self) -> (n: usize)
        ensures
            n == file_count(*self),
    {
        match &self.current_item_details {
            Some(d) => d.files.len(),
            None => 0,
        }
    }

    /// Selects the next file in the file list view.
    pub fn select_next_file(&mut self)
        ensures
            *final(self) == with_file_selection(*old(self), final(self).file_list_state),
            final(self).file_list_state.selected == next_position(
                old(self).file_list_state.selected,
                file_count(*old(self)),
            ),
    {
        let n = self.file_count_exec();
        let i = next_position_exec(self.file_list_state.selected(), n);
        self.file_list_state.select(i);
    }

    /// Selects the previous file in the file list view.
    pub fn select_previous_file(&mut self)
        ensures
            *final(self) == with_file_selection(*old(self), final(self).file_list_state),
            final(self).file_list_state.selected == previous_position(
                old(self).file_list_state.selected,
                file_count(*old(self)),
            ),
    {
        let n = self.file_count_exec();
        let i = previous_position_exec(self.file_list_state.selected(), n);
        self.file_list_state.select(i);
    }

    /// Gets the details of the currently selected file, if any.
    pub fn get_selected_file(&self) -> (r: Option<&FileDetails>)
        ensures
            r matches Some(f) ==> selected_file(*self) == Some(*f),
            r is None ==> selected_file(*self) is None,
    {
        match (self.file_list_state.selected(), &self.current_item_details) {
            (Some(index), Some(details)) => if index < details.files.len() {
                Some(&details.files[index])
            } else {
                None
            },
            _ => None,
        }
    }

    /// The download path of `file`: download directory / item id / file name.
    /// `None` if the download directory is not set or no item is viewed.
    pub fn get_download_path_for_file(&self, file: &FileDetails) -> (r: Option<String>)
        ensures
            text_of(r) == file_download_path(*self, *file),
    {
        match (&self.settings.download_directory, &self.viewing_item_id) {
            (Some(base_dir), Some(item_id)) => {
                let dir = join(base_dir.as_str(), item_id.as_str());
                Some(join(dir.as_str(), file.name.as_str()))
            },
            _ => None,
        }
    }

    /// The directory of the viewed item: download directory / item id.
    /// `None` if the download directory is not set or no item is viewed.
    pub fn get_download_path_for_item(&self) -> (r: Option<String>)
        ensures
            text_of(r) == item_download_path(*self),
    {
        match (&self.settings.download_directory, &self.viewing_item_id) {
            (Some(base_dir), Some(item_id)) => Some(join(base_dir.as_str(), item_id.as_str())),
            _ => None,
        }
    }
}

} // verus!
