//! What the screen shows for a given application state: titles, messages,
//! list lines and the status bar. Drawing them is left to the terminal front end.
use crate::app::{ActivePane, App, AppState};
use crate::archive_api::{FileDetails, ItemDetails};
use crate::text::{concat_text, decimal, decimal_text, push_str};
use crate::settings::mode_text;
use crate::update::NUM_SETTINGS;
use vstd::prelude::*;
use vstd::string::StrSliceExecFns;
use vstd::string::StringExecFns;

verus! {

/// The main view drawn for a state.
#[derive(Clone, Copy, Debug, PartialEq, Eq, Structural)]
pub enum MainView {
    /// The collection and item panes.
    Browsing,
    /// The item view.
    Item,
    /// The settings list.
    Settings,
}

/// The input box drawn over the main view, if any.
#[derive(Clone, Copy, Debug, PartialEq, Eq, Structural)]
pub enum Overlay {
    NoOverlay,
    EditSetting,
    AddCollection,
    AskDownloadDir,
}

/// The main view of a state.
pub open spec fn main_view_of(s: AppState) -> MainView {
    match s {
        AppState::ViewingItem => MainView::Item,
        AppState::SettingsView | AppState::EditingSetting => MainView::Settings,
        _ => MainView::Browsing,
    }
}

/// The overlay of a state.
pub open spec fn overlay_of(s: AppState) -> Overlay {
    match s {
        AppState::EditingSetting => Overlay::EditSetting,
        AppState::AddingCollection => Overlay::AddCollection,
        AppState::AskingDownloadDir => Overlay::AskDownloadDir,
        _ => Overlay::NoOverlay,
    }
}

/// The main view and the overlay drawn in `state`.
pub fn screen_for(state: AppState) -> (r: (MainView, Overlay))
    ensures
        r.0 == main_view_of(state),
        r.1 == overlay_of(state),
{
    match state {
        AppState::Browsing => (MainView::Browsing, Overlay::NoOverlay),
        AppState::ViewingItem => (MainView::Item, Overlay::NoOverlay),
        AppState::SettingsView => (MainView::Settings, Overlay::NoOverlay),
        AppState::EditingSetting => (MainView::Settings, Overlay::EditSetting),
        AppState::AddingCollection => (MainView::Browsing, Overlay::AddCollection),
        AppState::AskingDownloadDir => (MainView::Browsing, Overlay::AskDownloadDir),
        AppState::Downloading => (MainView::Browsing, Overlay::NoOverlay),
    }
}

/// A message shown in a pane in place of its list, with its kind.
#[derive(Debug, PartialEq, Eq)]
pub enum Notice {
    /// Something is being loaded (drawn in yellow).
    Loading(String),
    /// Something failed (drawn in red).
    Failure(String),
    /// There is nothing to list (drawn in gray).
    Empty(String),
}

/// `r` is a loading notice with message `msg`.
pub open spec fn is_loading_notice(r: Option<Notice>, msg: Seq<char>) -> bool {
    r matches Some(Notice::Loading(m)) && m@ == msg
}

/// `r` is a failure notice with message `msg`.
pub open spec fn is_failure_notice(r: Option<Notice>, msg: Seq<char>) -> bool {
    r matches Some(Notice::Failure(m)) && m@ == msg
}

/// `r` is an empty-list notice with message `msg`.
pub open spec fn is_empty_notice(r: Option<Notice>, msg: Seq<char>) -> bool {
    r matches Some(Notice::Empty(m)) && m@ == msg
}

/// An optional text, or `fallback` when there is none.
pub open spec fn text_or(t: Option<String>, fallback: Seq<char>) -> Seq<char> {
    match t {
        Some(s) => s@,
        None => fallback,
    }
}

/// An optional count in decimal, or `?` when there is none.
pub open spec fn count_or_unknown(n: Option<usize>) -> Seq<char> {
    match n {
        Some(k) => decimal(k as nat),
        None => "?"@,
    }
}

fn text_or_exec(t: &Option<String>, fallback: &str) -> (r: String)
    ensures
        r@ == text_or(*t, fallback@),
{
    match t {
        Some(s) => s.clone(),
        None => String::from_str(fallback),
    }
}

fn count_or_unknown_exec(n: Option<usize>) -> (r: String)
    ensures
        r@ == count_or_unknown(n),
{
    match n {
        Some(k) => decimal_text(k as u64),
        None => String::from_str("?"),
    }
}

/// Whether the pane `pane` is highlighted as the active one.
pub fn is_pane_active(app: &App, pane: ActivePane) -> (r: bool)
    ensures
        r == (app.active_pane == pane),
{
    app.active_pane == pane
}

/// The message of the collection pane when there is no favourite.
pub fn collection_list_notice(app: &App) -> (r: Option<Notice>)
    ensures
        app.settings.favorite_collections@.len() == 0 ==> is_empty_notice(
            r,
            "No collections saved.\nPress 'a' to add one."@,
        ),
        app.settings.favorite_collections@.len() > 0 ==> r is None,
{
    if app.settings.favorite_collections.len() == 0 {
        Some(Notice::Empty(String::from_str("No collections saved.\nPress 'a' to add one.")))
    } else {
        None
    }
}

/// The title of the item pane.
pub open spec fn item_list_title_text(app: App) -> Seq<char> {
    match app.current_collection_name {
        Some(name) => "Items for '"@ + name@ + "' ("@ + decimal(app.items@.len()) + " / "@
            + count_or_unknown(app.total_items_found) + ") (Enter: View, 'd': Item, 'b': All, Tab: Switch)"@,
        None => "Items (Select a collection) (Tab: Switch)"@,
    }
}

/// The title of the item pane: the collection with the number of items shown
/// and found.
pub fn item_list_title(app: &App) -> (r: String)
    ensures
        r@ == item_list_title_text(*app),
{
    match &app.current_collection_name {
        Some(name) => {
            let mut t = concat_text("Items for '", name.as_str());
            push_str(&mut t, "' (");
            let shown = decimal_text(app.items.len() as u64);
            push_str(&mut t, shown.as_str());
            push_str(&mut t, " / ");
            let total = count_or_unknown_exec(app.total_items_found);
            push_str(&mut t, total.as_str());
            push_str(&mut t, ") (Enter: View, 'd': Item, 'b': All, Tab: Switch)");
            t
        },
        None => String::from_str("Items (Select a collection) (Tab: Switch)"),
    }
}

/// What the item pane shows in place of its list: a loading message, the
/// error of the loaded collection, or why there is nothing to list.
pub open spec fn item_list_notice_is(app: App, r: Option<Notice>) -> bool {
    if app.is_loading {
        is_loading_notice(r, "Loading items..."@)
    } else if app.error_message is Some && app.current_collection_name is Some {
        is_failure_notice(r, "Error: "@ + app.error_message->0@)
    } else if app.current_collection_name is None {
        is_empty_notice(r, "<- Select a collection"@)
    } else if app.items@.len() == 0 {
        is_empty_notice(r, "No items found for this collection."@)
    } else {
        r is None
    }
}

/// What the item pane shows in place of its list (`None`: the list).
pub fn item_list_notice(app: &App) -> (r: Option<Notice>)
    ensures
        item_list_notice_is(*app, r),
{
    if app.is_loading {
        return Some(Notice::Loading(String::from_str("Loading items...")));
    }
    if let Some(err) = &app.error_message {
        if app.current_collection_name.is_some() {
            return Some(Notice::Failure(concat_text("Error: ", err.as_str())));
        }
    }
    if app.current_collection_name.is_none() {
        Some(Notice::Empty(String::from_str("<- Select a collection")))
    } else if app.items.len() == 0 {
        Some(Notice::Empty(String::from_str("No items found for this collection.")))
    } else {
        None
    }
}

/// The title of the item view.
pub open spec fn item_view_title_text(app: App) -> Seq<char> {
    "Item: "@ + text_or(app.current_collection_name, "Unknown"@) + " / "@ + text_or(
        app.viewing_item_id,
        "Unknown"@,
    ) + " (Esc: Back, ↑/↓: Files, Enter/'d': File, 'b': All Files)"@
}

/// The title of the item view: collection and item.
pub fn item_view_title(app: &App) -> (r: String)
    ensures
        r@ == item_view_title_text(*app),
{
    let mut t = String::from_str("Item: ");
    let c = text_or_exec(&app.current_collection_name, "Unknown");
    push_str(&mut t, c.as_str());
    push_str(&mut t, " / ");
    let i = text_or_exec(&app.viewing_item_id, "Unknown");
    push_str(&mut t, i.as_str());
    push_str(&mut t, " (Esc: Back, ↑/↓: Files, Enter/'d': File, 'b': All Files)");
    t
}

/// What the item view shows in place of the details (`None`: the details).
pub fn item_view_notice(app: &App) -> (r: Option<Notice>)
    ensures
        app.is_loading_details ==> is_loading_notice(r, "Loading details..."@),
        !app.is_loading_details && app.current_item_details is None ==> is_failure_notice(
            r,
            text_or(app.error_message, "Failed to load item details."@),
        ),
        !app.is_loading_details && app.current_item_details is Some ==> r is None,
{
    if app.is_loading_details {
        Some(Notice::Loading(String::from_str("Loading details...")))
    } else if app.current_item_details.is_none() {
        Some(Notice::Failure(text_or_exec(&app.error_message, "Failed to load item details.")))
    } else {
        None
    }
}

/// The texts of `list` joined by `sep`.
pub open spec fn joined(list: Seq<String>, sep: Seq<char>) -> Seq<char>
    decreases list.len(),
{
    if list.len() == 0 {
        Seq::empty()
    } else if list.len() == 1 {
        list[0]@
    } else {
        joined(list.drop_last(), sep) + sep + list.last()@
    }
}

/// The texts of `list` joined by `sep` (`slice::join`).
pub fn join_texts(list: &Vec<String>, sep: &str) -> (r: String)
    ensures
        r@ == joined(list@, sep@),
{
    let mut r = String::new();
    let mut i: usize = 0;
    while i < list.len()
        invariant
            i <= list@.len(),
            r@ == joined(list@.take(i as int), sep@),
        decreases list.len() - i,
    {
        assert(list@.take(i + 1).drop_last() =~= list@.take(i as int));
        if i > 0 {
            push_str(&mut r, sep);
        }
        push_str(&mut r, list[i].as_str());
        i = i + 1;
    }
    assert(list@.take(list@.len() as int) =~= list@);
    r
}

/// The values shown in the metadata pane; `N/A` stands for missing ones.
#[derive(Debug)]
pub struct MetadataView {
    pub title: String,
    pub creator: String,
    pub date: String,
    pub uploader: String,
    /// The collections joined by `, `.
    pub collections: String,
    /// The whole description, to be shown line by line.
    pub description: String,
}

/// The values shown in the metadata pane for `d`.
pub fn metadata_view(d: &ItemDetails) -> (r: MetadataView)
    ensures
        r.title@ == text_or(d.title, "N/A"@),
        r.creator@ == text_or(d.creator, "N/A"@),
        r.date@ == text_or(d.date, "N/A"@),
        r.uploader@ == text_or(d.uploader, "N/A"@),
        d.collections@.len() == 0 ==> r.collections@ == "N/A"@,
        d.collections@.len() > 0 ==> r.collections@ == joined(d.collections@, ", "@),
        r.description@ == text_or(d.description, "N/A"@),
{
    MetadataView {
        title: text_or_exec(&d.title, "N/A"),
        creator: text_or_exec(&d.creator, "N/A"),
        date: text_or_exec(&d.date, "N/A"),
        uploader: text_or_exec(&d.uploader, "N/A"),
        collections: if d.collections.len() == 0 {
            String::from_str("N/A")
        } else {
            join_texts(&d.collections, ", ")
        },
        description: text_or_exec(&d.description, "N/A"),
    }
}

/// The line of the file list for `file`.
pub fn file_line(file: &FileDetails) -> (r: String)
    ensures
        r@ == file.name@ + " (Format: "@ + text_or(file.format, "N/A"@) + ", Size: "@ + text_or(
            file.size,
            "N/A"@,
        ) + ")"@,
{
    let mut l = concat_text(file.name.as_str(), " (Format: ");
    let f = text_or_exec(&file.format, "N/A");
    push_str(&mut l, f.as_str());
    push_str(&mut l, ", Size: ");
    let s = text_or_exec(&file.size, "N/A");
    push_str(&mut l, s.as_str());
    push_str(&mut l, ")");
    l
}

/// A concurrency limit in decimal, or `Unlimited` when there is none.
pub open spec fn limit_text(n: Option<usize>) -> Seq<char> {
    match n {
        Some(k) => decimal(k as nat),
        None => "Unlimited"@,
    }
}

/// The adjustment hint shown beside the entry at `at` when it is selected.
pub open spec fn hint(selected: usize, at: usize) -> Seq<char> {
    if selected == at {
        "< >"@
    } else {
        ""@
    }
}

fn limit_text_exec(n: Option<usize>) -> (r: String)
    ensures
        r@ == limit_text(n),
{
    match n {
        Some(k) => decimal_text(k as u64),
        None => String::from_str("Unlimited"),
    }
}

fn hint_exec(selected: usize, at: usize) -> (r: &'static str)
    ensures
        r@ == hint(selected, at),
{
    if selected == at {
        "< >"
    } else {
        ""
    }
}

/// The lines of the settings list, one per entry in the order of
/// `selected_setting_index`: download directory, download mode, file
/// concurrency and collection concurrency. The entries that Left and Right
/// change (mode and both limits) carry the adjustment hint when selected.
pub fn settings_lines(app: &App) -> (r: Vec<String>)
    ensures
        r@.len() == NUM_SETTINGS,
        r@[0]@ == "Download Directory: "@ + text_or(app.settings.download_directory, "Not Set"@),
        r@[1]@ == "Download Mode: "@ + mode_text(app.settings.download_mode) + " "@ + hint(
            app.selected_setting_index,
            1,
        ),
        r@[2]@ == "Max Concurrent File Downloads: "@ + limit_text(app.settings.max_concurrent_downloads)
            + " "@ + hint(app.selected_setting_index, 2),
        r@[3]@ == "Max Concurrent Collection Downloads: "@ + limit_text(
            app.settings.max_concurrent_collections,
        ) + " "@ + hint(app.selected_setting_index, 3),
{
    let dir = text_or_exec(&app.settings.download_directory, "Not Set");
    let l0 = concat_text("Download Directory: ", dir.as_str());
    let mut l1 = String::from_str("Download Mode: ");
    push_str(&mut l1, app.settings.download_mode.label());
    push_str(&mut l1, " ");
    push_str(&mut l1, hint_exec(app.selected_setting_index, 1));
    let mut l2 = String::from_str("Max Concurrent File Downloads: ");
    let n2 = limit_text_exec(app.settings.max_concurrent_downloads);
    push_str(&mut l2, n2.as_str());
    push_str(&mut l2, " ");
    push_str(&mut l2, hint_exec(app.selected_setting_index, 2));
    let mut l3 = String::from_str("Max Concurrent Collection Downloads: ");
    let n3 = limit_text_exec(app.settings.max_concurrent_collections);
    push_str(&mut l3, n3.as_str());
    push_str(&mut l3, " ");
    push_str(&mut l3, hint_exec(app.selected_setting_index, 3));
    let mut r = Vec::new();
    r.push(l0);
    r.push(l1);
    r.push(l2);
    r.push(l3);
    r
}

/// An input box drawn over the main view: its title, its prompt, the text
/// being typed and the cursor position in that text.
#[derive(Debug)]
pub struct InputBox {
    pub title: String,
    pub prompt: String,
    pub input: String,
    pub cursor: usize,
}

/// The input box of `overlay`.
pub open spec fn input_box_is(app: App, overlay: Overlay, b: InputBox) -> bool {
    match overlay {
        Overlay::EditSetting => {
            &&& b.title@ == "Editing Setting (Enter: Save, Esc: Cancel)"@
            &&& b.prompt@ == "Edit Value: "@
            &&& b.input@ == app.editing_setting_input@
            &&& b.cursor == app.cursor_position
        },
        Overlay::AddCollection => {
            &&& b.title@ == "Add Collection (Enter: Save, Esc: Cancel)"@
            &&& b.prompt@ == "Collection ID: "@
            &&& b.input@ == app.add_collection_input@
            &&& b.cursor == app.add_collection_cursor_pos
        },
        _ => {
            &&& b.title@ == "Set Download Directory (Enter: Save, Esc: Cancel)"@
            &&& b.prompt@ == "Download Path: "@
            &&& b.input@ == app.editing_setting_input@
            &&& b.cursor == app.cursor_position
        },
    }
}

/// The input box drawn for `overlay` (the download-path box for the other values).
pub fn input_box(app: &App, overlay: Overlay) -> (r: InputBox)
    ensures
        input_box_is(*app, overlay, r),
{
    match overlay {
        Overlay::EditSetting => InputBox {
            title: String::from_str("Editing Setting (Enter: Save, Esc: Cancel)"),
            prompt: String::from_str("Edit Value: "),
            input: app.editing_setting_input.clone(),
            cursor: app.cursor_position,
        },
        Overlay::AddCollection => InputBox {
            title: String::from_str("Add Collection (Enter: Save, Esc: Cancel)"),
            prompt: String::from_str("Collection ID: "),
            input: app.add_collection_input.clone(),
            cursor: app.add_collection_cursor_pos,
        },
        _ => InputBox {
            title: String::from_str("Set Download Directory (Enter: Save, Esc: Cancel)"),
            prompt: String::from_str("Download Path: "),
            input: app.editing_setting_input.clone(),
            cursor: app.cursor_position,
        },
    }
}

/// How the status bar is coloured.
#[derive(Clone, Copy, Debug, PartialEq, Eq, Structural)]
pub enum StatusTone {
    /// An error is shown (red).
    Failure,
    /// A download runs (yellow).
    Active,
    /// A download finished (green).
    Done,
    /// Nothing special.
    Plain,
}

/// Whether `needle` occurs in `hay`.
pub open spec fn occurs_in(hay: Seq<char>, needle: Seq<char>) -> bool {
    exists|i: int| 0 <= i && i + needle.len() <= hay.len() && #[trigger] hay.subrange(i, i + needle.len()) == needle
}

/// Whether `needle` occurs in `hay` (`str::contains`).
pub fn contains_text(hay: &str, needle: &str) -> (r: bool)
    ensures
        r == occurs_in(hay@, needle@),
{
    let n = hay.unicode_len();
    let m = needle.unicode_len();
    if m > n {
        return false;
    }
    let target = String::from_str(needle);
    let last = n - m;
    let mut i: usize = 0;
    while i <= last
        invariant
            n == hay@.len(),
            m == needle@.len(),
            last == n - m,
            target@ == needle@,
            i <= last + 1,
            forall|j: int| 0 <= j < i ==> #[trigger] hay@.subrange(j, j + m) != needle@,
        decreases last + 1 - i,
    {
        let piece = String::from_str(hay.substring_char(i, i + m));
        if crate::text::same_text(&piece, &target) {
            return true;
        }
        if i == last {
            return false;
        }
        i = i + 1;
    }
    false
}

/// The colour of the status bar: red when an error is shown or the download
/// status mentions an error or a failure, yellow while downloading, green
/// when a download status remains.
pub open spec fn status_tone_of(app: App) -> StatusTone {
    let st = text_or(app.download_status, ""@);
    if app.error_message is Some || occurs_in(st, "Error"@) || occurs_in(st, "Failed"@) {
        StatusTone::Failure
    } else if app.is_downloading {
        StatusTone::Active
    } else if app.download_status is Some {
        StatusTone::Done
    } else {
        StatusTone::Plain
    }
}

/// The colour of the status bar.
pub fn status_tone(app: &App) -> (r: StatusTone)
    ensures
        r == status_tone_of(*app),
{
    let st = text_or_exec(&app.download_status, "");
    if app.error_message.is_some() || contains_text(st.as_str(), "Error") || contains_text(
        st.as_str(),
        "Failed",
    ) {
        StatusTone::Failure
    } else if app.is_downloading {
        StatusTone::Active
    } else if app.download_status.is_some() {
        StatusTone::Done
    } else {
        StatusTone::Plain
    }
}

/// The help line of the browsing state for the active pane.
pub open spec fn pane_help(pane: ActivePane) -> Seq<char> {
    match pane {
        ActivePane::Collections => "Collections Pane. 'q': Quit, 's': Settings, Tab: Switch, ↑/↓: Nav, Enter: Load, 'a': Add, Del: Remove, 'd'/'b': Download Collection"@,
        ActivePane::Items => "Items Pane. 'q': Quit, 's': Settings, Tab: Switch, ↑/↓: Nav, Enter: View Details, 'd': Download Item, 'b': Download All Items"@,
    }
}

/// The text of the status bar, given the download speed text `speed` (such
/// as ` (1.5 MB/s)`, or empty): download progress while downloading, else
/// the download status, the error, what is being loaded, a blank in the
/// views that title themselves, or the help of the active pane.
pub open spec fn status_text_of(app: App, speed: Seq<char>) -> Seq<char> {
    if app.is_downloading {
        "Downloading [Items: "@ + decimal(app.items_downloaded_count as nat) + "/"@ + count_or_unknown(
            app.total_items_to_download,
        ) + " | Files: "@ + decimal(app.files_downloaded_count as nat) + "/"@ + count_or_unknown(
            app.total_files_to_download,
        ) + speed + "]: "@ + text_or(app.download_status, "..."@)
    } else if app.download_status is Some {
        app.download_status->0@
    } else if app.error_message is Some {
        app.error_message->0@
    } else if app.is_loading {
        "Fetching collection data..."@
    } else if app.is_loading_details {
        "Fetching item details..."@
    } else if app.current_state == AppState::AskingDownloadDir || app.current_state
        == AppState::ViewingItem || app.current_state == AppState::SettingsView || app.current_state
        == AppState::EditingSetting || app.current_state == AppState::AddingCollection {
        " "@
    } else {
        pane_help(app.active_pane)
    }
}

/// The text of the status bar.
pub fn status_text(app: &App, speed: &str) -> (r: String)
    ensures
        r@ == status_text_of(*app, speed@),
{
    if app.is_downloading {
        let mut t = String::from_str("Downloading [Items: ");
        let a = decimal_text(app.items_downloaded_count as u64);
        push_str(&mut t, a.as_str());
        push_str(&mut t, "/");
        let b = count_or_unknown_exec(app.total_items_to_download);
        push_str(&mut t, b.as_str());
        push_str(&mut t, " | Files: ");
        let c = decimal_text(app.files_downloaded_count as u64);
        push_str(&mut t, c.as_str());
        push_str(&mut t, "/");
        let d = count_or_unknown_exec(app.total_files_to_download);
        push_str(&mut t, d.as_str());
        push_str(&mut t, speed);
        push_str(&mut t, "]: ");
        let e = text_or_exec(&app.download_status, "...");
        push_str(&mut t, e.as_str());
        t
    } else if let Some(status) = &app.download_status {
        status.clone()
    } else if let Some(err) = &app.error_message {
        err.clone()
    } else if app.is_loading {
        String::from_str("Fetching collection data...")
    } else if app.is_loading_details {
        String::from_str("Fetching item details...")
    } else if app.current_state == AppState::AskingDownloadDir || app.current_state
        == AppState::ViewingItem || app.current_state == AppState::SettingsView || app.current_state
        == AppState::EditingSetting || app.current_state == AppState::AddingCollection {
        String::from_str(" ")
    } else {
        match app.active_pane {
            ActivePane::Collections => String::from_str(
                "Collections Pane. 'q': Quit, 's': Settings, Tab: Switch, ↑/↓: Nav, Enter: Load, 'a': Add, Del: Remove, 'd'/'b': Download Collection",
            ),
            ActivePane::Items => String::from_str(
                "Items Pane. 'q': Quit, 's': Settings, Tab: Switch, ↑/↓: Nav, Enter: View Details, 'd': Download Item, 'b': Download All Items",
            ),
        }
    }
}

} // verus!
