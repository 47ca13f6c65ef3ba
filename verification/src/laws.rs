//! Properties of the library that relate several operations or hold of every
//! reachable state.
use crate::app::{
    initial_collection_selection,
    DownloadAction,
    file_count,
    UpdateAction,
    selected_collection,
    selected_file,
    ActivePane,
    adds_favorite,
    favorite_added,
    file_download_path,
    has_text,
    item_download_path,
    cursor_left,
    cursor_right,
    is_initial_app,
    next_position,
    previous_position,
    selection_after_removal,
    App,
    AppState,
};
use crate::archive_api::{
    bulk_search_params,
    BULK_ROWS,
    details_of,
    listed_files,
    mapped_files,
    FileDetailsInternal,
    NamedFile,
    details_result,
    response_result,
    DetailsFailure,
    FetchDetailsError,
    is_success,
    send_error_kind,
    status_error_kind,
    FetchDetailsErrorKind,
    SendFailure,
    BulkFailure,
    BulkFetchError,
    BulkStep,
    ItemDetails,
    ItemMetadataResponse,
    JsonValue,
    MetadataDetails,
    bulk_step,
    backoff_secs,
    is_retried,
    jsonp_payload,
    BulkAttempt,
    MAX_FETCH_RETRIES,
};
use crate::archive_api::FileDetails;
use crate::event::KeyEvent;
use crate::gamepad::{
    button_action_of, moved_focus, selected_count, toggled_mark, Direction, ItemMark, PadAction, PadButton,
};
use crate::paths::join_path;
use crate::config::base_dir;
use crate::text::{decimal, digit_char, text_le};
use crate::ui::{
    input_box_is, joined, main_view_of, overlay_of, InputBox, MainView, Overlay, item_list_notice_is, occurs_in, status_text_of, status_tone_of, text_or, Notice, StatusTone};
use crate::update::is_quit_key;
use crate::event::KeyCode;
use crate::settings::{
    settings_from_stored,
    toggled_mode,
    DownloadMode,
    Settings,
    SettingsError,
    StoredSettings,
    SETTINGS_FILE_NAME,
};
use crate::text::{
    all_ascii, byte_len, char_at_byte, char_width, is_space, lemma_ascii_boundary, lemma_ascii_byte_len,
    lemma_chars_within_bytes, trim_end, trim_start, trimmed,
};
use crate::update::{
    add_input_step, adjusted_limit, setting_input_step, update_requires, update_step, NUM_SETTINGS,
};
use vstd::prelude::*;

verus! {

// --- Lists ---

/// Moving down and then up in a non-empty list returns to the selected entry.
pub proof fn law_next_then_previous(i: usize, count: nat)
    requires
        i < count,
        count <= usize::MAX,
    ensures
        previous_position(next_position(Some(i), count), count) == Some(i),
{
}

/// Moving up and then down in a non-empty list returns to the selected entry.
pub proof fn law_previous_then_next(i: usize, count: nat)
    requires
        i < count,
        count <= usize::MAX,
    ensures
        next_position(previous_position(Some(i), count), count) == Some(i),
{
}

/// In a non-empty list, moving from a valid selection or from none always
/// lands on a valid entry.
pub proof fn law_moves_stay_in_list(sel: Option<usize>, count: nat)
    requires
        count > 0,
        count <= usize::MAX,
        sel matches Some(i) ==> i < count,
    ensures
        next_position(sel, count) matches Some(j) && j < count,
        previous_position(sel, count) matches Some(j) && j < count,
{
}

/// After a removal the selection is a valid entry of what is left, or nothing
/// when the list became empty: the entry that followed the removed one takes
/// its place, and removing the last entry selects the new last one.
pub proof fn law_selection_after_removal_valid(index: usize, remaining: nat)
    ensures
        remaining == 0 <==> selection_after_removal(index, remaining) is None,
        selection_after_removal(index, remaining) matches Some(j) ==> j < remaining,
        index < remaining ==> selection_after_removal(index, remaining) == Some(index),
        0 < remaining <= index ==> selection_after_removal(index, remaining) == Some(
            (remaining - 1) as usize,
        ),
{
}

// --- Text input ---

/// Trimming is idempotent.
pub proof fn law_trim_idempotent(s: Seq<char>)
    ensures
        trimmed(trimmed(s)) == trimmed(s),
{
    lemma_trim_start_result(s);
    lemma_trim_end_result(trim_start(s));
    let t = trimmed(s);
    if t.len() > 0 {
        assert(!is_space(t[0])) by {
            lemma_trim_end_prefix(trim_start(s));
        }
        assert(trim_start(t) == t);
        assert(trim_end(t) == t);
    } else {
        assert(trim_start(t) == t);
    }
}

proof fn lemma_trim_start_result(s: Seq<char>)
    ensures
        trim_start(s).len() > 0 ==> !is_space(trim_start(s)[0]),
    decreases s.len(),
{
    if s.len() > 0 && is_space(s[0]) {
        lemma_trim_start_result(s.drop_first());
    }
}

proof fn lemma_trim_end_result(s: Seq<char>)
    ensures
        trim_end(s).len() > 0 ==> !is_space(trim_end(s).last()),
    decreases s.len(),
{
    if s.len() > 0 && is_space(s.last()) {
        lemma_trim_end_result(s.drop_last());
    }
}

proof fn lemma_trim_end_prefix(s: Seq<char>)
    ensures
        trim_end(s).len() <= s.len(),
        forall|k: int| 0 <= k < trim_end(s).len() ==> trim_end(s)[k] == s[k],
    decreases s.len(),
{
    if s.len() > 0 && is_space(s.last()) {
        lemma_trim_end_prefix(s.drop_last());
        assert forall|k: int| 0 <= k < trim_end(s).len() implies trim_end(s)[k] == s[k] by {
            assert(s.drop_last()[k] == s[k]);
        }
    }
}

/// Typing a character into the add-collection input and then deleting it
/// with Backspace gives back the input and its cursor, where the text
/// before the cursor is ASCII (so that the cursor's byte offset, at which
/// the character goes in, is also its character position).
pub proof fn law_type_then_backspace(pre: App, mid: App, post: App, typed: KeyEvent, back: KeyEvent)
    requires
        (typed.code is Char),
        back.code == KeyCode::Backspace,
        pre.add_collection_cursor_pos <= pre.add_collection_input@.len() < usize::MAX,
        all_ascii(pre.add_collection_input@.take(pre.add_collection_cursor_pos as int)),
        add_input_step(pre, typed, mid),
        add_input_step(mid, back, post),
    ensures
        post.add_collection_input@ == pre.add_collection_input@,
        post == (App { add_collection_input: post.add_collection_input, ..pre }),
{
    let text = pre.add_collection_input@;
    let pos = pre.add_collection_cursor_pos as int;
    lemma_ascii_boundary(text, pos);
    assert(text.insert(pos, typed.code->Char_0).remove(pos) =~= text);
}

/// The same for the setting input: typing then Backspace gives back the
/// text and the cursor, where the text before the cursor is ASCII.
pub proof fn law_type_then_backspace_setting(pre: App, mid: App, post: App, typed: KeyEvent, back: KeyEvent)
    requires
        (typed.code is Char),
        back.code == KeyCode::Backspace,
        pre.cursor_position <= pre.editing_setting_input@.len() < usize::MAX,
        all_ascii(pre.editing_setting_input@.take(pre.cursor_position as int)),
        setting_input_step(pre, typed, mid),
        setting_input_step(mid, back, post),
    ensures
        post.editing_setting_input@ == pre.editing_setting_input@,
        post == (App { editing_setting_input: post.editing_setting_input, ..pre }),
{
    let text = pre.editing_setting_input@;
    let pos = pre.cursor_position as int;
    lemma_ascii_boundary(text, pos);
    assert(text.insert(pos, typed.code->Char_0).remove(pos) =~= text);
}

proof fn lemma_trim_start_skips_spaces(s: Seq<char>)
    ensures
        exists|i: int|
            0 <= i <= s.len() && trim_start(s) == s.skip(i) && forall|k: int| 0 <= k < i ==> is_space(
                #[trigger] s[k],
            ),
    decreases s.len(),
{
    if s.len() > 0 && is_space(s[0]) {
        lemma_trim_start_skips_spaces(s.drop_first());
        let i = choose|i: int|
            0 <= i <= s.drop_first().len() && trim_start(s.drop_first()) == s.drop_first().skip(i)
                && forall|k: int| 0 <= k < i ==> is_space(#[trigger] s.drop_first()[k]);
        assert(s.drop_first().skip(i) =~= s.skip(i + 1));
        assert forall|k: int| 0 <= k < i + 1 implies is_space(#[trigger] s[k]) by {
            if k > 0 {
                assert(s[k] == s.drop_first()[k - 1]);
            }
        }
    } else {
        assert(s.skip(0) =~= s);
    }
}

proof fn lemma_trim_end_drops_spaces(s: Seq<char>)
    ensures
        exists|j: int|
            0 <= j <= s.len() && trim_end(s) == s.take(j) && forall|k: int| j <= k < s.len() ==> is_space(
                #[trigger] s[k],
            ),
    decreases s.len(),
{
    if s.len() > 0 && is_space(s.last()) {
        lemma_trim_end_drops_spaces(s.drop_last());
        let j = choose|j: int|
            0 <= j <= s.drop_last().len() && trim_end(s.drop_last()) == s.drop_last().take(j)
                && forall|k: int| j <= k < s.drop_last().len() ==> is_space(#[trigger] s.drop_last()[k]);
        assert(s.drop_last().take(j) =~= s.take(j));
        assert forall|k: int| j <= k < s.len() implies is_space(#[trigger] s[k]) by {
            if k < s.len() - 1 {
                assert(s[k] == s.drop_last()[k]);
            }
        }
    } else {
        assert(s.take(s.len() as int) =~= s);
    }
}

/// Trimming keeps a contiguous part of the text and drops only whitespace
/// around it: what is left neither starts nor ends with whitespace.
pub proof fn law_trim_drops_only_surrounding_space(s: Seq<char>)
    ensures
        exists|i: int, j: int|
            0 <= i <= j <= s.len() && trimmed(s) == s.subrange(i, j) && (forall|k: int|
                0 <= k < i ==> is_space(#[trigger] s[k])) && (forall|k: int|
                j <= k < s.len() ==> is_space(#[trigger] s[k])),
        trimmed(s).len() > 0 ==> !is_space(trimmed(s)[0]) && !is_space(trimmed(s).last()),
{
    lemma_trim_start_skips_spaces(s);
    let i = choose|i: int|
        0 <= i <= s.len() && trim_start(s) == s.skip(i) && forall|k: int| 0 <= k < i ==> is_space(
            #[trigger] s[k],
        );
    let t = s.skip(i);
    lemma_trim_end_drops_spaces(t);
    let j = choose|j: int|
        0 <= j <= t.len() && trim_end(t) == t.take(j) && forall|k: int| j <= k < t.len() ==> is_space(
            #[trigger] t[k],
        );
    assert(t.take(j) =~= s.subrange(i, i + j));
    assert forall|k: int| i + j <= k < s.len() implies is_space(#[trigger] s[k]) by {
        assert(s[k] == t[k - i]);
    }
    law_trim_idempotent(s);
    lemma_trim_start_result(s);
    lemma_trim_end_result(trim_start(s));
    if trimmed(s).len() > 0 {
        lemma_trim_end_prefix(trim_start(s));
        assert(trimmed(s)[0] == trim_start(s)[0]);
    }
}

/// The ASCII whitespace (space, tab, line feed, vertical tab, form feed,
/// carriage return) is whitespace, no visible ASCII character is, and
/// neither is any character between them and the Unicode spaces.
pub proof fn law_whitespace_characters(c: char)
    ensures
        (c == ' ' || c == '\t' || c == '\n' || c == '\r' || c as u32 == 0x0B || c as u32 == 0x0C)
            ==> is_space(c),
        0x21 <= c as u32 <= 0x7E ==> !is_space(c),
        0x0E <= c as u32 <= 0x1F ==> !is_space(c),
        c as u32 == 0xA0 || c as u32 == 0x3000 || c as u32 == 0x2028 ==> is_space(c),
{
}

/// The character boundaries of a text are exactly the byte lengths of its
/// beginnings: the boundary at byte offset `b` is before character `k`
/// when the first `k` characters take `b` bytes, and every such offset is
/// a boundary.
pub proof fn law_boundaries_are_prefix_lengths(s: Seq<char>, k: int, b: int)
    requires
        0 <= k <= s.len(),
    ensures
        char_at_byte(s, byte_len(s.take(k)) as int) == Some(k as nat),
        char_at_byte(s, b) == Some(k as nat) ==> b == byte_len(s.take(k)),
    decreases s.len(),
{
    if s.len() > 0 {
        if k > 0 {
            assert(s.take(k).drop_first() =~= s.drop_first().take(k - 1));
            assert(s.take(k)[0] == s[0]);
            law_boundaries_are_prefix_lengths(s.drop_first(), k - 1, b - char_width(s[0]));
        } else {
            assert(s.take(0) =~= Seq::<char>::empty());
        }
    } else {
        assert(s.take(k) =~= Seq::<char>::empty());
    }
}

/// The cursor moves stay within the text.
pub proof fn law_cursor_moves_stay_in_text(pos: usize, len: nat)
    ensures
        0 <= cursor_left(pos, len) <= len,
        0 <= cursor_right(pos, len) <= len,
{
}

/// Left and Right in an input move the cursor by one character, not
/// before the start nor past the last character, and change no text.
pub proof fn law_left_right_move_cursor(pre: App, key: KeyEvent, post: App, action: Option<UpdateAction>)
    requires
        pre.current_state == AppState::AddingCollection || pre.current_state == AppState::EditingSetting
            || pre.current_state == AppState::AskingDownloadDir,
        key.code == KeyCode::Left || key.code == KeyCode::Right,
        update_step(pre, key, post, action),
    ensures
        post.editing_setting_input == pre.editing_setting_input,
        post.add_collection_input == pre.add_collection_input,
        post.current_state == pre.current_state,
        pre.current_state == AppState::AddingCollection && key.code == KeyCode::Left ==> post.add_collection_cursor_pos
            == if pre.add_collection_cursor_pos == 0 {
            0
        } else {
            min_int(pre.add_collection_cursor_pos - 1, pre.add_collection_input@.len() as int)
        },
        pre.current_state == AppState::AddingCollection && key.code == KeyCode::Right
            && pre.add_collection_cursor_pos < usize::MAX ==> post.add_collection_cursor_pos == min_int(
            pre.add_collection_cursor_pos + 1,
            pre.add_collection_input@.len() as int,
        ),
        pre.current_state != AppState::AddingCollection && key.code == KeyCode::Left ==> post.cursor_position
            == if pre.cursor_position == 0 {
            0
        } else {
            min_int(pre.cursor_position - 1, pre.editing_setting_input@.len() as int)
        },
        pre.current_state != AppState::AddingCollection && key.code == KeyCode::Right && pre.cursor_position
            < usize::MAX ==> post.cursor_position == min_int(
            pre.cursor_position + 1,
            pre.editing_setting_input@.len() as int,
        ),
{
}

/// The smaller of two numbers.
pub open spec fn min_int(a: int, b: int) -> int {
    if a <= b {
        a
    } else {
        b
    }
}

// --- Settings view ---

/// Moving down through the settings entries comes back to the start after
/// all of them.
pub proof fn law_settings_cycle(index: usize)
    requires
        index < NUM_SETTINGS,
    ensures
        ((((((((index + 1) % 4) + 1) % 4) + 1) % 4) + 1) % 4) == index,
{
}

/// In the settings view, Down then Up (or Up then Down) gives back the
/// selected entry and its highlight, and changes no setting.
pub proof fn law_settings_down_then_up(
    pre: App,
    mid: App,
    post: App,
    first: KeyEvent,
    second: KeyEvent,
    a1: Option<crate::app::UpdateAction>,
    a2: Option<crate::app::UpdateAction>,
)
    requires
        pre.current_state == AppState::SettingsView,
        pre.selected_setting_index < NUM_SETTINGS,
        (first.code == KeyCode::Down && second.code == KeyCode::Up) || (first.code == KeyCode::Up
            && second.code == KeyCode::Down),
        update_step(pre, first, mid, a1),
        update_step(mid, second, post, a2),
    ensures
        post.current_state == AppState::SettingsView,
        post.selected_setting_index == pre.selected_setting_index,
        post.settings_list_state.selected == Some(pre.selected_setting_index),
        post.settings == pre.settings,
{
}

/// Switching the download mode twice gives back the mode.
pub proof fn law_toggle_mode_twice(m: DownloadMode)
    ensures
        toggled_mode(toggled_mode(m)) == m,
        toggled_mode(m) != m,
{
}

/// A concurrency limit never goes below one, and Right then Left gives back
/// a limit of at least one that can still grow.
pub proof fn law_limit_adjustment(current: Option<usize>, more: bool)
    ensures
        adjusted_limit(current, more) >= 1,
        (current matches Some(n) && 1 <= n < usize::MAX) ==> adjusted_limit(
            Some(adjusted_limit(current, true)),
            false,
        ) == current->0,
{
}

// --- Reachable states ---

/// The states that the application keeps: the cursor of an input state
/// stands within its text (the setting input's cursor counts bytes up to
/// the text's byte length, as after Enter on a setting), and the selected
/// settings entry is one of the entries.
pub open spec fn app_wf(app: App) -> bool {
    &&& (app.current_state == AppState::AskingDownloadDir || app.current_state
        == AppState::EditingSetting) ==> app.cursor_position <= byte_len(app.editing_setting_input@)
    &&& app.current_state == AppState::AddingCollection ==> app.add_collection_cursor_pos
        <= app.add_collection_input@.len()
    &&& app.selected_setting_index < NUM_SETTINGS
}

/// A new application is in such a state.
pub proof fn law_new_app_wf(app: App)
    requires
        is_initial_app(app),
    ensures
        app_wf(app),
{
}

/// In such a state every key other than a typed character can be handled,
/// and a typed character too where the inputs hold ASCII text; elsewhere a
/// character can be typed exactly where the cursor stands on a character
/// boundary.
pub proof fn law_wf_handles_keys(app: App, key: KeyEvent)
    requires
        app_wf(app),
    ensures
        !(key.code is Char) ==> update_requires(app, key),
        all_ascii(app.editing_setting_input@) && all_ascii(app.add_collection_input@)
            ==> update_requires(app, key),
{
    let e = app.editing_setting_input@;
    let a = app.add_collection_input@;
    if all_ascii(e) && all_ascii(a) {
        lemma_ascii_byte_len(e);
        if app.cursor_position <= e.len() {
            assert(all_ascii(e.take(app.cursor_position as int)));
            lemma_ascii_boundary(e, app.cursor_position as int);
        }
        if app.add_collection_cursor_pos <= a.len() {
            assert(all_ascii(a.take(app.add_collection_cursor_pos as int)));
            lemma_ascii_boundary(a, app.add_collection_cursor_pos as int);
        }
    }
}

/// Handling a key keeps the application in such a state.
pub proof fn law_update_keeps_wf(pre: App, key: KeyEvent, post: App, action: Option<
    crate::app::UpdateAction,
>)
    requires
        app_wf(pre),
        update_step(pre, key, post, action),
    ensures
        app_wf(post),
{
    lemma_chars_within_bytes(post.editing_setting_input@);
}

// --- Editing settings and asking for the download directory ---

/// Enter while editing the download directory stores the edited text, trimmed,
/// or unsets the directory when that text is blank; the other settings stay,
/// and the settings view comes back.
pub proof fn law_edit_directory_enter_stores_text(pre: App, key: KeyEvent, post: App, action: Option<
    crate::app::UpdateAction,
>)
    requires
        pre.current_state == AppState::EditingSetting,
        pre.selected_setting_index == 0,
        key.code == KeyCode::Enter,
        update_step(pre, key, post, action),
    ensures
        post.current_state == AppState::SettingsView,
        trimmed(pre.editing_setting_input@).len() > 0 ==> (post.settings.download_directory matches Some(
            d,
        ) && d@ == trimmed(pre.editing_setting_input@)),
        trimmed(pre.editing_setting_input@).len() == 0 ==> post.settings.download_directory is None,
        post.settings.download_mode == pre.settings.download_mode,
        post.settings.max_concurrent_downloads == pre.settings.max_concurrent_downloads,
        post.settings.max_concurrent_collections == pre.settings.max_concurrent_collections,
        post.settings.favorite_collections == pre.settings.favorite_collections,
        post.editing_setting_input@.len() == 0,
{
}

/// Enter while editing another entry, and Esc while editing any entry,
/// change no setting.
pub proof fn law_edit_other_entry_keeps_settings(pre: App, key: KeyEvent, post: App, action: Option<
    crate::app::UpdateAction,
>)
    requires
        pre.current_state == AppState::EditingSetting,
        key.code == KeyCode::Esc || (key.code == KeyCode::Enter && pre.selected_setting_index != 0),
        update_step(pre, key, post, action),
    ensures
        post.current_state == AppState::SettingsView,
        post.settings == pre.settings,
{
}

/// The keys that ask for a download in the state of `app`: `d` or `b` on a
/// selected favourite collection, `d` on a selected item, `b` on the items
/// pane of a loaded collection, and, in the item view, Enter or `d` on a
/// selected file or `b` for the whole item.
pub open spec fn download_requested(app: App, key: KeyEvent) -> bool {
    ||| app.current_state == AppState::Browsing && app.active_pane == ActivePane::Collections && (key.code
        == KeyCode::Char('d') || key.code == KeyCode::Char('b')) && selected_collection(app) is Some
    ||| app.current_state == AppState::Browsing && app.active_pane == ActivePane::Items && key.code
        == KeyCode::Char('d') && (app.item_list_state.selected matches Some(i) && i < app.items@.len())
    ||| app.current_state == AppState::Browsing && app.active_pane == ActivePane::Items && key.code
        == KeyCode::Char('b') && app.current_collection_name is Some
    ||| app.current_state == AppState::ViewingItem && (key.code == KeyCode::Enter || key.code
        == KeyCode::Char('d')) && selected_file(app) is Some && app.viewing_item_id is Some
    ||| app.current_state == AppState::ViewingItem && key.code == KeyCode::Char('b')
        && app.viewing_item_id is Some
}

/// A download asked for while the download directory is unset switches to
/// asking for it, with an empty input and the cursor at its start, and
/// queues nothing.
pub proof fn law_download_without_directory_asks(pre: App, key: KeyEvent, post: App, action: Option<
    crate::app::UpdateAction,
>)
    requires
        pre.settings.download_directory is None,
        download_requested(pre, key),
        update_step(pre, key, post, action),
    ensures
        post.current_state == AppState::AskingDownloadDir,
        post.editing_setting_input@.len() == 0,
        post.cursor_position == 0,
        post.settings == pre.settings,
        action is None,
{
}

/// A download asked for while the download directory is set queues a
/// download, except a bulk download of a collection with no listed items,
/// which is refused with a message; the state stays the same.
pub proof fn law_download_with_directory_queues(pre: App, key: KeyEvent, post: App, action: Option<
    crate::app::UpdateAction,
>)
    requires
        pre.settings.download_directory is Some,
        download_requested(pre, key),
        update_step(pre, key, post, action),
    ensures
        post.current_state == pre.current_state,
        post.settings == pre.settings,
        (action matches Some(crate::app::UpdateAction::StartDownload(_))) || (pre.current_state
            == AppState::Browsing && pre.active_pane == ActivePane::Items && key.code == KeyCode::Char(
            'b',
        ) && pre.items@.len() == 0 && action is None && post.error_message is Some),
{
}

// --- Moving through the lists by key ---

/// The selection of the list that Up and Down move through in the state of
/// `app`: the favourites or the items while browsing (by pane), the files
/// in the item view.
pub open spec fn list_selection(app: App) -> Option<usize> {
    if app.current_state == AppState::ViewingItem {
        app.file_list_state.selected
    } else if app.active_pane == ActivePane::Collections {
        app.collection_list_state.selected
    } else {
        app.item_list_state.selected
    }
}

/// The number of entries of that list.
pub open spec fn list_len(app: App) -> nat {
    if app.current_state == AppState::ViewingItem {
        file_count(app)
    } else if app.active_pane == ActivePane::Collections {
        app.settings.favorite_collections@.len()
    } else {
        app.items@.len()
    }
}

/// Down selects the entry below the selected one, the first after the last
/// (or when nothing is selected); Up the one above, the last before the
/// first (the first when nothing is selected); in an empty list neither
/// changes the selection. The list itself stays.
pub proof fn law_up_down_move_by_one(pre: App, key: KeyEvent, post: App, action: Option<UpdateAction>)
    requires
        pre.current_state == AppState::Browsing || pre.current_state == AppState::ViewingItem,
        key.code == KeyCode::Down || key.code == KeyCode::Up,
        update_step(pre, key, post, action),
    ensures
        post.current_state == pre.current_state,
        post.active_pane == pre.active_pane,
        list_len(post) == list_len(pre),
        list_len(pre) == 0 ==> list_selection(post) == list_selection(pre),
        list_len(pre) > 0 && key.code == KeyCode::Down ==> list_selection(post) == Some(
            match list_selection(pre) {
                Some(i) => if i + 1 < list_len(pre) {
                    (i + 1) as usize
                } else {
                    0usize
                },
                None => 0usize,
            },
        ),
        list_len(pre) > 0 && key.code == KeyCode::Up ==> list_selection(post) == Some(
            match list_selection(pre) {
                Some(i) => if i == 0 {
                    (list_len(pre) - 1) as usize
                } else {
                    (i - 1) as usize
                },
                None => 0usize,
            },
        ),
        action is None,
{
}

/// Down then Up, or Up then Down, gives back a selection within the list.
pub proof fn law_down_then_up_in_lists(
    pre: App,
    mid: App,
    post: App,
    first: KeyEvent,
    second: KeyEvent,
    a1: Option<UpdateAction>,
    a2: Option<UpdateAction>,
)
    requires
        pre.current_state == AppState::Browsing || pre.current_state == AppState::ViewingItem,
        (first.code == KeyCode::Down && second.code == KeyCode::Up) || (first.code == KeyCode::Up
            && second.code == KeyCode::Down),
        list_selection(pre) matches Some(i) && i < list_len(pre),
        list_len(pre) <= usize::MAX,
        update_step(pre, first, mid, a1),
        update_step(mid, second, post, a2),
    ensures
        list_selection(post) == list_selection(pre),
{
    law_up_down_move_by_one(pre, first, mid, a1);
    law_up_down_move_by_one(mid, second, post, a2);
    let i = list_selection(pre)->0;
    let n = list_len(pre);
    if first.code == KeyCode::Down {
        if i + 1 < n {
            assert(list_selection(mid) == Some((i + 1) as usize));
        } else {
            assert(list_selection(mid) == Some(0usize));
        }
    } else {
        if i == 0 {
            assert(list_selection(mid) == Some((n - 1) as usize));
        } else {
            assert(list_selection(mid) == Some((i - 1) as usize));
        }
    }
}

// --- Browsing, viewing and the settings view ---

/// Tab in the browsing state moves to the other pane and changes nothing else
/// that the user sees.
pub proof fn law_tab_switches_pane(pre: App, key: KeyEvent, post: App, action: Option<UpdateAction>)
    requires
        pre.current_state == AppState::Browsing,
        key.code == KeyCode::Tab,
        update_step(pre, key, post, action),
    ensures
        post.current_state == AppState::Browsing,
        post.active_pane != pre.active_pane,
        post.settings == pre.settings,
        post.items == pre.items,
        action is None,
{
}

/// Enter on a selected favourite collection asks for its items: the item
/// list is emptied and shown, loading, with no item selected.
pub proof fn law_enter_on_collection_fetches_it(pre: App, key: KeyEvent, post: App, action: Option<
    UpdateAction,
>)
    requires
        pre.current_state == AppState::Browsing,
        pre.active_pane == ActivePane::Collections,
        key.code == KeyCode::Enter,
        pre.collection_list_state.selected matches Some(i) && i < pre.settings.favorite_collections@.len(),
        update_step(pre, key, post, action),
    ensures
        action == Some(UpdateAction::FetchCollectionItems(
            pre.settings.favorite_collections@[pre.collection_list_state.selected->0 as int],
        )),
        post.current_collection_name == Some(
            pre.settings.favorite_collections@[pre.collection_list_state.selected->0 as int],
        ),
        post.items@.len() == 0,
        post.item_list_state.selected is None,
        post.is_loading,
        post.active_pane == ActivePane::Items,
        post.current_state == AppState::Browsing,
{
}

/// Delete or Backspace on a selected favourite collection removes exactly
/// that entry and asks for the settings to be saved; when it was the
/// collection whose items are shown, the item list is emptied.
pub proof fn law_delete_removes_selected_collection(pre: App, key: KeyEvent, post: App, action: Option<
    UpdateAction,
>)
    requires
        pre.current_state == AppState::Browsing,
        pre.active_pane == ActivePane::Collections,
        key.code == KeyCode::Delete || key.code == KeyCode::Backspace,
        pre.collection_list_state.selected matches Some(i) && i < pre.settings.favorite_collections@.len(),
        update_step(pre, key, post, action),
    ensures
        post.settings.favorite_collections@ == pre.settings.favorite_collections@.remove(
            pre.collection_list_state.selected->0 as int,
        ),
        post.settings.favorite_collections@.len() + 1 == pre.settings.favorite_collections@.len(),
        action == Some(UpdateAction::SaveSettings),
        post.settings.download_directory == pre.settings.download_directory,
        (pre.current_collection_name matches Some(c) && c@ == pre.settings.favorite_collections@[pre.collection_list_state.selected->0 as int]@)
            ==> (post.items@.len() == 0 && post.current_collection_name is None
            && post.total_items_found is None),
        !(pre.current_collection_name matches Some(c) && c@ == pre.settings.favorite_collections@[pre.collection_list_state.selected->0 as int]@)
            ==> (post.items == pre.items && post.current_collection_name == pre.current_collection_name),
{
}

/// `a` in the collections pane opens an empty input for a new collection.
pub proof fn law_a_opens_collection_input(pre: App, key: KeyEvent, post: App, action: Option<UpdateAction>)
    requires
        pre.current_state == AppState::Browsing,
        pre.active_pane == ActivePane::Collections,
        key.code == KeyCode::Char('a'),
        update_step(pre, key, post, action),
    ensures
        post.current_state == AppState::AddingCollection,
        post.add_collection_input@.len() == 0,
        post.add_collection_cursor_pos == 0,
        post.settings == pre.settings,
        action is None,
{
}

/// Enter on a selected item opens its details view and asks for its details.
pub proof fn law_enter_on_item_views_it(pre: App, key: KeyEvent, post: App, action: Option<UpdateAction>)
    requires
        pre.current_state == AppState::Browsing,
        pre.active_pane == ActivePane::Items,
        key.code == KeyCode::Enter,
        pre.item_list_state.selected matches Some(i) && i < pre.items@.len(),
        update_step(pre, key, post, action),
    ensures
        post.current_state == AppState::ViewingItem,
        post.viewing_item_id == Some(pre.items@[pre.item_list_state.selected->0 as int].identifier),
        post.current_item_details is None,
        post.file_list_state.selected is None,
        post.is_loading_details,
        action == Some(UpdateAction::FetchItemDetails),
{
}

/// Esc in the item view goes back to browsing and forgets the item.
pub proof fn law_esc_leaves_item_view(pre: App, key: KeyEvent, post: App, action: Option<UpdateAction>)
    requires
        pre.current_state == AppState::ViewingItem,
        key.code == KeyCode::Esc,
        update_step(pre, key, post, action),
    ensures
        post.current_state == AppState::Browsing,
        post.viewing_item_id is None,
        post.current_item_details is None,
        post.file_list_state.selected is None,
        post.items == pre.items,
        action is None,
{
}

/// `s` opens the settings view from browsing and from the item view, with
/// the remembered entry highlighted.
pub proof fn law_s_opens_settings(pre: App, key: KeyEvent, post: App, action: Option<UpdateAction>)
    requires
        pre.current_state == AppState::Browsing || pre.current_state == AppState::ViewingItem,
        key.code == KeyCode::Char('s'),
        update_step(pre, key, post, action),
    ensures
        post.current_state == AppState::SettingsView,
        post.settings_list_state.selected == Some(pre.selected_setting_index),
        post.settings == pre.settings,
        action is None,
{
}

/// Esc in the settings view goes back to browsing and asks for the
/// settings to be saved, unchanged.
pub proof fn law_esc_saves_settings(pre: App, key: KeyEvent, post: App, action: Option<UpdateAction>)
    requires
        pre.current_state == AppState::SettingsView,
        key.code == KeyCode::Esc,
        update_step(pre, key, post, action),
    ensures
        post.current_state == AppState::Browsing,
        post.settings == pre.settings,
        action == Some(UpdateAction::SaveSettings),
{
}

/// A limit as a number: an unset limit counts as one.
pub open spec fn limit_value(v: Option<usize>) -> int {
    match v {
        Some(c) => c as int,
        None => 1,
    }
}

/// One more than the limit, staying at the largest `usize`.
pub open spec fn raised_limit(v: Option<usize>) -> int {
    if limit_value(v) == usize::MAX {
        limit_value(v)
    } else {
        limit_value(v) + 1
    }
}

/// One less than the limit, but at least one.
pub open spec fn lowered_limit(v: Option<usize>) -> int {
    if limit_value(v) >= 2 {
        limit_value(v) - 1
    } else {
        1
    }
}

/// Left and Right in the settings view: on the download mode they switch to
/// the other mode; on a concurrency limit Right raises it by one (an unset
/// limit counts as one, and the largest stays) and Left lowers it by one but
/// not below one. Only that setting changes.
pub proof fn law_left_right_adjust_setting(pre: App, key: KeyEvent, post: App, action: Option<UpdateAction>)
    requires
        pre.current_state == AppState::SettingsView,
        key.code == KeyCode::Left || key.code == KeyCode::Right,
        update_step(pre, key, post, action),
    ensures
        post.current_state == AppState::SettingsView,
        post.settings.download_directory == pre.settings.download_directory,
        post.settings.favorite_collections == pre.settings.favorite_collections,
        pre.selected_setting_index == 1 ==> post.settings.download_mode != pre.settings.download_mode,
        pre.selected_setting_index != 1 ==> post.settings.download_mode == pre.settings.download_mode,
        pre.selected_setting_index == 2 && key.code == KeyCode::Right ==> (
        post.settings.max_concurrent_downloads matches Some(n) && n == raised_limit(
            pre.settings.max_concurrent_downloads,
        )),
        pre.selected_setting_index == 2 && key.code == KeyCode::Left ==> (
        post.settings.max_concurrent_downloads matches Some(n) && n == lowered_limit(
            pre.settings.max_concurrent_downloads,
        )),
        pre.selected_setting_index == 3 && key.code == KeyCode::Right ==> (
        post.settings.max_concurrent_collections matches Some(n) && n == raised_limit(
            pre.settings.max_concurrent_collections,
        )),
        pre.selected_setting_index == 3 && key.code == KeyCode::Left ==> (
        post.settings.max_concurrent_collections matches Some(n) && n == lowered_limit(
            pre.settings.max_concurrent_collections,
        )),
        pre.selected_setting_index != 2 ==> post.settings.max_concurrent_downloads
            == pre.settings.max_concurrent_downloads,
        pre.selected_setting_index != 3 ==> post.settings.max_concurrent_collections
            == pre.settings.max_concurrent_collections,
{
}

/// Enter on the download-directory entry opens it for editing, holding the
/// current directory (or nothing) with the cursor at its end.
pub proof fn law_enter_edits_directory(pre: App, key: KeyEvent, post: App, action: Option<UpdateAction>)
    requires
        pre.current_state == AppState::SettingsView,
        pre.selected_setting_index == 0,
        key.code == KeyCode::Enter,
        update_step(pre, key, post, action),
    ensures
        post.current_state == AppState::EditingSetting,
        (pre.settings.download_directory matches Some(d) ==> post.editing_setting_input@ == d@),
        pre.settings.download_directory is None ==> post.editing_setting_input@.len() == 0,
        post.cursor_position == byte_len(post.editing_setting_input@) as usize,
        post.settings == pre.settings,
{
}

/// Enter while asking for the download directory stores the trimmed input
/// and asks for the settings to be saved; a blank input is refused with a
/// message and the question stays.
pub proof fn law_asked_directory_is_stored(pre: App, key: KeyEvent, post: App, action: Option<UpdateAction>)
    requires
        pre.current_state == AppState::AskingDownloadDir,
        key.code == KeyCode::Enter,
        update_step(pre, key, post, action),
    ensures
        trimmed(pre.editing_setting_input@).len() > 0 ==> (post.settings.download_directory matches Some(
            d,
        ) && d@ == trimmed(pre.editing_setting_input@)),
        trimmed(pre.editing_setting_input@).len() > 0 ==> post.current_state == AppState::Browsing
            && action == Some(UpdateAction::SaveSettings),
        trimmed(pre.editing_setting_input@).len() == 0 ==> post.current_state
            == AppState::AskingDownloadDir && post.settings == pre.settings && action is None
            && post.error_message is Some,
{
}

/// Enter while adding a collection adds the trimmed text to the favourites
/// when it is new (and leaves them when it is already there), goes back to
/// browsing and asks for the settings to be saved; a blank text is refused
/// with a message. Esc leaves the favourites as they are.
pub proof fn law_added_collection_is_stored(pre: App, key: KeyEvent, post: App, action: Option<UpdateAction>)
    requires
        pre.current_state == AppState::AddingCollection,
        key.code == KeyCode::Enter || key.code == KeyCode::Esc,
        update_step(pre, key, post, action),
    ensures
        key.code == KeyCode::Esc ==> post.current_state == AppState::Browsing && post.settings
            == pre.settings && action is None,
        key.code == KeyCode::Enter && trimmed(pre.add_collection_input@).len() > 0 ==> (
        post.current_state == AppState::Browsing && action == Some(UpdateAction::SaveSettings)
            && has_text(post.settings.favorite_collections@, trimmed(pre.add_collection_input@))),
        key.code == KeyCode::Enter && trimmed(pre.add_collection_input@).len() > 0 && has_text(
            pre.settings.favorite_collections@,
            trimmed(pre.add_collection_input@),
        ) ==> post.settings == pre.settings,
        key.code == KeyCode::Enter && trimmed(pre.add_collection_input@).len() > 0 && !has_text(
            pre.settings.favorite_collections@,
            trimmed(pre.add_collection_input@),
        ) ==> post.settings.favorite_collections@.len() == pre.settings.favorite_collections@.len() + 1,
        key.code == KeyCode::Enter && trimmed(pre.add_collection_input@).len() == 0 ==> (
        post.current_state == AppState::AddingCollection && post.settings == pre.settings && action is None
            && post.error_message is Some),
{
    broadcast use vstd::seq_lib::group_to_multiset_ensures;

    let id = trimmed(pre.add_collection_input@);
    if key.code == KeyCode::Enter && id.len() > 0 {
        law_trim_idempotent(pre.add_collection_input@);
        if !has_text(pre.settings.favorite_collections@, id) {
            let fav = post.settings.favorite_collections@;
            let p = post.collection_list_state.selected->0 as int;
            assert(fav[p]@ == id);
            let old_fav = pre.settings.favorite_collections@;
            let x = choose|x: String| x@ == id && fav.to_multiset() == old_fav.to_multiset().insert(x);
            assert(fav.to_multiset().len() == old_fav.to_multiset().len() + 1) by {
                broadcast use vstd::multiset::group_multiset_axioms;
            }
        }
    }
}

/// With the download directory set, the download queued names what is
/// selected: the favourite collection, the item, the collection whose
/// items are listed, the file of the item viewed, or the item viewed.
pub proof fn law_download_names_selection(pre: App, key: KeyEvent, post: App, action: Option<
    UpdateAction,
>)
    requires
        pre.settings.download_directory is Some,
        download_requested(pre, key),
        update_step(pre, key, post, action),
        action is Some,
    ensures
        pre.current_state == AppState::Browsing && pre.active_pane == ActivePane::Collections ==> action
            == Some(UpdateAction::StartDownload(DownloadAction::Collection(selected_collection(pre)->0))),
        pre.current_state == AppState::Browsing && pre.active_pane == ActivePane::Items && key.code
            == KeyCode::Char('d') ==> action == Some(UpdateAction::StartDownload(DownloadAction::ItemAllFiles(
            pre.items@[pre.item_list_state.selected->0 as int].identifier,
        ))),
        pre.current_state == AppState::Browsing && pre.active_pane == ActivePane::Items && key.code
            == KeyCode::Char('b') ==> action == Some(UpdateAction::StartDownload(DownloadAction::Collection(
            pre.current_collection_name->0,
        ))),
        pre.current_state == AppState::ViewingItem && key.code != KeyCode::Char('b') ==> action == Some(
            UpdateAction::StartDownload(DownloadAction::File(pre.viewing_item_id->0, selected_file(pre)->0)),
        ),
        pre.current_state == AppState::ViewingItem && key.code == KeyCode::Char('b') ==> action == Some(
            UpdateAction::StartDownload(DownloadAction::ItemAllFiles(pre.viewing_item_id->0)),
        ),
        post.download_status is Some,
{
}

/// A download key pressed where nothing to download is selected.
pub open spec fn nothing_to_download(pre: App, key: KeyEvent) -> bool {
    ||| pre.current_state == AppState::Browsing && pre.active_pane == ActivePane::Collections && (key.code
        == KeyCode::Char('d') || key.code == KeyCode::Char('b')) && selected_collection(pre) is None
    ||| pre.current_state == AppState::Browsing && pre.active_pane == ActivePane::Items && key.code
        == KeyCode::Char('d') && pre.item_list_state.selected is None
    ||| pre.current_state == AppState::Browsing && pre.active_pane == ActivePane::Items && key.code
        == KeyCode::Char('b') && pre.current_collection_name is None
    ||| pre.current_state == AppState::ViewingItem && (key.code == KeyCode::Enter || key.code
        == KeyCode::Char('d')) && selected_file(pre) is None
}

/// A download key with nothing to download selected queues nothing and
/// explains why: no favourite collection selected, no item selected, no
/// collection whose items are listed, or no file selected in the item view.
pub proof fn law_download_without_selection_explains(pre: App, key: KeyEvent, post: App, action: Option<
    UpdateAction,
>)
    requires
        nothing_to_download(pre, key),
        update_step(pre, key, post, action),
    ensures
        action is None,
        post.error_message is Some,
        post.current_state == pre.current_state,
        post.settings == pre.settings,
{
}

// --- Favourite collections ---

/// Once a collection is added, adding it again changes nothing.
pub proof fn law_add_favorite_twice(pre: App, mid: App, id: Seq<char>)
    requires
        adds_favorite(pre.settings.favorite_collections@, id),
        favorite_added(pre, mid, trimmed(id)),
    ensures
        !adds_favorite(mid.settings.favorite_collections@, id),
{
    let p = mid.collection_list_state.selected->0 as int;
    assert(has_text(mid.settings.favorite_collections@, trimmed(id))) by {
        assert(mid.settings.favorite_collections@[p]@ == trimmed(id));
    }
}

/// Deleting the collection just added (it is the selected one) gives back the
/// favourites that were there before.
pub proof fn law_remove_undoes_add(pre: App, mid: App, id: Seq<char>)
    requires
        adds_favorite(pre.settings.favorite_collections@, id),
        favorite_added(pre, mid, trimmed(id)),
    ensures
        mid.settings.favorite_collections@.remove(
            mid.collection_list_state.selected->0 as int,
        ).to_multiset() == pre.settings.favorite_collections@.to_multiset(),
{
    broadcast use vstd::seq_lib::group_to_multiset_ensures;
    broadcast use vstd::multiset::group_multiset_axioms;

    let fav = mid.settings.favorite_collections@;
    let old_fav = pre.settings.favorite_collections@;
    let p = mid.collection_list_state.selected->0 as int;
    let x = choose|x: String| x@ == trimmed(id) && fav.to_multiset() == old_fav.to_multiset().insert(x);
    let y = fav[p];
    assert(fav.contains(y));
    assert(fav.to_multiset().count(y) > 0);
    if y != x {
        assert(old_fav.to_multiset().count(y) > 0);
        assert(old_fav.contains(y));
        let k = choose|k: int| 0 <= k < old_fav.len() && old_fav[k] == y;
        assert(has_text(old_fav, trimmed(id)));
    }
    assert(fav.remove(p).to_multiset() == fav.to_multiset().remove(y));
}

/// No two entries of `list` hold the same text.
pub open spec fn texts_distinct(list: Seq<String>) -> bool {
    forall|i: int, j: int|
        0 <= i < list.len() && 0 <= j < list.len() && i != j ==> (#[trigger] list[i])@
            != (#[trigger] list[j])@
}

/// Adding a favourite keeps the favourites free of repeated texts.
pub proof fn law_add_keeps_favorites_distinct(pre: App, mid: App, id: Seq<char>)
    requires
        texts_distinct(pre.settings.favorite_collections@),
        adds_favorite(pre.settings.favorite_collections@, id),
        favorite_added(pre, mid, trimmed(id)),
    ensures
        texts_distinct(mid.settings.favorite_collections@),
{
    broadcast use vstd::seq_lib::group_to_multiset_ensures;
    broadcast use vstd::multiset::group_multiset_axioms;

    let fav = mid.settings.favorite_collections@;
    let old_fav = pre.settings.favorite_collections@;
    let x = choose|x: String| x@ == trimmed(id) && fav.to_multiset() == old_fav.to_multiset().insert(x);
    assert forall|i: int, j: int|
        0 <= i < fav.len() && 0 <= j < fav.len() && i != j implies (#[trigger] fav[i])@
        != (#[trigger] fav[j])@ by {
        if fav[i]@ == fav[j]@ {
            assert(fav.to_multiset().count(fav[i]) > 0);
            assert(fav.to_multiset().count(fav[j]) > 0);
            if fav[i] == fav[j] {
                let v = fav[i];
                assert(fav.remove(j).to_multiset() == fav.to_multiset().remove(v));
                let k = if i < j { i } else { i - 1 };
                assert(fav.remove(j)[k] == v);
                assert(fav.remove(j).contains(v));
                assert(fav.remove(j).to_multiset().count(v) > 0);
                assert(fav.to_multiset().count(v) >= 2);
                if v == x {
                    assert(old_fav.to_multiset().count(x) > 0);
                    assert(old_fav.contains(x));
                    let a = choose|a: int| 0 <= a < old_fav.len() && old_fav[a] == x;
                    assert(has_text(old_fav, trimmed(id)));
                } else {
                    assert(old_fav.to_multiset().count(v) >= 2);
                    assert(old_fav.contains(v));
                    let a = choose|a: int| 0 <= a < old_fav.len() && old_fav[a] == v;
                    assert(old_fav.remove(a).to_multiset() == old_fav.to_multiset().remove(v));
                    assert(old_fav.remove(a).to_multiset().count(v) > 0);
                    assert(old_fav.remove(a).contains(v));
                    let b = choose|b: int| 0 <= b < old_fav.remove(a).len() && old_fav.remove(a)[b] == v;
                    let b2 = if b < a { b } else { b + 1 };
                    assert(old_fav[b2] == v);
                    assert(old_fav[a]@ != old_fav[b2]@);
                }
            } else if fav[i] == x || fav[j] == x {
                let y = if fav[i] == x { fav[j] } else { fav[i] };
                assert(y != x);
                assert(fav.to_multiset().count(y) > 0);
                assert(old_fav.to_multiset().count(y) > 0);
                assert(old_fav.contains(y));
                let a = choose|a: int| 0 <= a < old_fav.len() && old_fav[a] == y;
                assert(old_fav[a]@ == trimmed(id));
                assert(has_text(old_fav, trimmed(id)));
            } else {
                assert(old_fav.to_multiset().count(fav[i]) > 0);
                assert(old_fav.to_multiset().count(fav[j]) > 0);
                assert(old_fav.contains(fav[i]));
                assert(old_fav.contains(fav[j]));
                let a = choose|a: int| 0 <= a < old_fav.len() && old_fav[a] == fav[i];
                let b = choose|b: int| 0 <= b < old_fav.len() && old_fav[b] == fav[j];
                assert(old_fav[a]@ != old_fav[b]@);
            }
        }
    }
}

// --- Key handling ---

/// `q` and Ctrl+C stop the application from every state, and ask for no action.
pub proof fn law_quit_keys_quit(pre: App, key: KeyEvent, post: App, action: Option<
    crate::app::UpdateAction,
>)
    requires
        is_quit_key(key),
        update_step(pre, key, post, action),
    ensures
        !post.running,
        action is None,
        post.settings == pre.settings,
{
}

/// The action that `update` returns is the one left pending in the state.
pub proof fn law_action_is_pending(pre: App, key: KeyEvent, post: App, action: Option<
    crate::app::UpdateAction,
>)
    requires
        update_step(pre, key, post, action),
    ensures
        action == post.pending_action,
{
}

// --- Settings file ---

/// Settings read back from the settings file are the settings it holds, so
/// what `save_settings` hands to the writer is what `load_settings` returns
/// when the reader gives it back (both use the file at `settings_file_path`
/// of the same configuration directory).
pub proof fn law_load_returns_stored(s: Settings, loaded: Result<Settings, SettingsError>)
    requires
        settings_from_stored(StoredSettings::Found(s), loaded),
    ensures
        loaded == Ok::<Settings, SettingsError>(s),
{
}

/// Saving and then loading in the same configuration directory gives back
/// the saved settings: both name the same settings file, and where the
/// reader returns the settings that the writer stored there, loading
/// returns them.
pub proof fn law_save_then_load(
    dir: Seq<char>,
    saved_to: String,
    read_from: String,
    s: Settings,
    stored: StoredSettings,
    loaded: Result<Settings, SettingsError>,
)
    requires
        saved_to@ == join_path(dir, SETTINGS_FILE_NAME@),
        read_from@ == join_path(dir, SETTINGS_FILE_NAME@),
        read_from@ == saved_to@ ==> stored == StoredSettings::Found(s),
        settings_from_stored(stored, loaded),
    ensures
        read_from@ == saved_to@,
        loaded == Ok::<Settings, SettingsError>(s),
{
}

// --- Item details ---

/// `out` is what a text field of the metadata gives: the text itself, the
/// first element of a list when that is a text, and nothing for a missing
/// field or any other value.
pub open spec fn reads_text_field(v: Option<JsonValue>, out: Option<String>) -> bool {
    &&& (v matches Some(JsonValue::Text(t)) ==> out == Some(t))
    &&& (v matches Some(JsonValue::Array(a)) ==> if a@.len() > 0 && a@[0] is Text {
        out == Some(a@[0]->Text_0)
    } else {
        out is None
    })
    &&& (v is None || v == Some(JsonValue::Null) || (v matches Some(JsonValue::Bool(_))) || (v matches Some(
        JsonValue::Number(_),
    )) || (v matches Some(JsonValue::Object(_)))) ==> out is None
}

/// The details of an item carry the title, creator and description that its
/// metadata gives, its single collection or none, its dates, uploader and
/// media type as given, and the download URL `https://{server}/{dir}`.
pub proof fn law_details_follow_metadata(
    identifier: Seq<char>,
    raw: ItemMetadataResponse,
    m: MetadataDetails,
    d: ItemDetails,
)
    requires
        raw.metadata == Some(m),
        details_of(identifier, raw, d),
    ensures
        d.identifier@ == identifier,
        reads_text_field(m.title, d.title),
        reads_text_field(m.creator, d.creator),
        reads_text_field(m.description, d.description),
        (m.collection matches Some(JsonValue::Text(t)) ==> d.collections@ == seq![t]),
        m.collection is None ==> d.collections@.len() == 0,
        d.date == m.date,
        d.uploader == m.uploader,
        d.mediatype == m.mediatype,
        (raw.server is Some && raw.dir is Some) ==> (d.download_base_url matches Some(u) && u@
            == "https://"@ + raw.server->0@ + "/"@ + raw.dir->0@),
        raw.server is None || raw.dir is None ==> d.download_base_url is None,
{
}

/// A `files` array whose entries are all file records lists one file per
/// entry, in order, with the entry's name, source, format, size and checksum.
pub proof fn law_files_from_array(v: Seq<Option<NamedFile>>)
    requires
        forall|i: int| 0 <= i < v.len() ==> (#[trigger] v[i]) is Some,
    ensures
        listed_files(v).len() == v.len(),
        forall|i: int|
            0 <= i < v.len() ==> (#[trigger] listed_files(v)[i]).name == v[i]->0.name
                && listed_files(v)[i].source == v[i]->0.details.source && listed_files(v)[i].format
                == v[i]->0.details.format && listed_files(v)[i].size == v[i]->0.details.size
                && listed_files(v)[i].md5 == v[i]->0.details.md5,
    decreases v.len(),
{
    if v.len() > 0 {
        let w = v.drop_last();
        assert forall|i: int| 0 <= i < w.len() implies (#[trigger] w[i]) is Some by {
            assert(w[i] == v[i]);
        }
        law_files_from_array(w);
    }
}

/// A `files` object whose values are all file records lists one file per
/// key, in order, named by the key without its leading `/`.
pub proof fn law_files_from_object(v: Seq<(String, Option<FileDetailsInternal>)>, files: Seq<FileDetails>)
    requires
        forall|i: int| 0 <= i < v.len() ==> (#[trigger] v[i]).1 is Some,
        mapped_files(v, files),
    ensures
        files.len() == v.len(),
        forall|i: int|
            0 <= i < v.len() ==> if v[i].0@.len() > 0 && v[i].0@[0] == '/' {
                (#[trigger] files[i]).name@ == v[i].0@.drop_first()
            } else {
                files[i].name@ == v[i].0@
            },
        forall|i: int| 0 <= i < v.len() ==> (#[trigger] files[i]).format == v[i].1->0.format,
    decreases v.len(),
{
    if v.len() > 0 {
        let w = v.drop_last();
        assert forall|i: int| 0 <= i < w.len() implies (#[trigger] w[i]).1 is Some by {
            assert(w[i] == v[i]);
        }
        law_files_from_object(w, files.drop_last());
        assert forall|i: int| 0 <= i < v.len() - 1 implies (#[trigger] files[i]) == files.drop_last()[i]
            && v[i] == w[i] by {}
    }
}

/// A reply without metadata gives details with no title, creator,
/// description, dates, uploader, media type or collections.
pub proof fn law_details_without_metadata(identifier: Seq<char>, raw: ItemMetadataResponse, d: ItemDetails)
    requires
        raw.metadata is None,
        details_of(identifier, raw, d),
    ensures
        d.title is None && d.creator is None && d.description is None,
        d.date is None && d.uploader is None && d.mediatype is None,
        d.collections@.len() == 0,
{
}

/// How a status that is not a success is classified: 404 is "not found",
/// 429 "rate limit exceeded", any other 4xx a client error and any 5xx a
/// server error, each carrying the status; everything else is "other".
pub proof fn law_status_classification(status: u16)
    ensures
        is_success(status) <==> 200 <= status < 300,
        status == 404 ==> status_error_kind(status) == FetchDetailsErrorKind::NotFound,
        status == 429 ==> status_error_kind(status) == FetchDetailsErrorKind::RateLimitExceeded,
        400 <= status < 500 && status != 404 && status != 429 ==> status_error_kind(status)
            == FetchDetailsErrorKind::ClientError(status),
        500 <= status < 600 ==> status_error_kind(status) == FetchDetailsErrorKind::ServerError(status),
        !(400 <= status < 600) ==> status_error_kind(status) == FetchDetailsErrorKind::Other,
{
}

/// A failed send is a network error when it timed out or could not connect
/// or build the request, and "other" otherwise.
pub proof fn law_send_failure_classification(f: SendFailure)
    ensures
        (f.is_timeout || f.is_connect_or_request) ==> send_error_kind(f)
            == FetchDetailsErrorKind::NetworkError,
        !(f.is_timeout || f.is_connect_or_request) ==> send_error_kind(f) == FetchDetailsErrorKind::Other,
{
}

/// Reading a details reply: a body that could not be parsed is a parse
/// error carrying the parser's message; a reply with neither metadata nor
/// files is "not found"; any other reply gives the item's details. Every
/// error names the item asked for.
pub proof fn law_details_reply_outcomes(
    identifier: Seq<char>,
    body: Result<ItemMetadataResponse, String>,
    r: Result<ItemDetails, FetchDetailsError>,
)
    requires
        details_result(identifier, body, r),
    ensures
        (body matches Err(msg) ==> (r matches Err(e) && e.kind == FetchDetailsErrorKind::ParseError
            && e.source == DetailsFailure::Parse(msg))),
        (body matches Ok(raw) ==> (r is Ok <==> (raw.metadata is Some || raw.files is Some))),
        (body matches Ok(raw) ==> (r is Err ==> (r matches Err(e) && e.kind
            == FetchDetailsErrorKind::NotFound))),
        (r matches Ok(d) ==> d.identifier@ == identifier),
        (r matches Err(e) ==> e.identifier@ == identifier),
{
}

/// Checking the response to a details request: a success status lets the
/// body be read; any other status is an error carrying that status, and a
/// failed send an error carrying the client's message, both naming the
/// item asked for.
pub proof fn law_details_response_outcomes(
    identifier: Seq<char>,
    response: Result<u16, SendFailure>,
    r: Result<(), FetchDetailsError>,
)
    requires
        response_result(identifier, response, r),
    ensures
        (response matches Ok(status) ==> (r is Ok <==> 200 <= status < 300)),
        (response matches Ok(status) ==> (r matches Err(e) ==> e.source == DetailsFailure::Status(status)
            && e.identifier@ == identifier)),
        (response matches Err(f) ==> (r matches Err(e) && e.source == DetailsFailure::Send(f.message)
            && e.identifier@ == identifier)),
{
}

/// Without a settings file the settings are the defaults: no download
/// directory, direct downloads, four files and one collection at a time,
/// and no favourites.
pub proof fn law_missing_file_gives_defaults(loaded: Result<Settings, SettingsError>)
    requires
        settings_from_stored(StoredSettings::Missing, loaded),
    ensures
        loaded matches Ok(s) && s.download_directory is None && s.download_mode == DownloadMode::Direct
            && s.max_concurrent_downloads == Some(4usize) && s.max_concurrent_collections == Some(1usize)
            && s.favorite_collections@.len() == 0,
{
}

/// A file that could not be read or understood is an error carrying the
/// message, never the defaults.
pub proof fn law_bad_file_is_an_error(msg: String, loaded: Result<Settings, SettingsError>)
    ensures
        settings_from_stored(StoredSettings::Unreadable(msg), loaded) ==> loaded == Err::<
            Settings,
            SettingsError,
        >(SettingsError::Read(msg)),
        settings_from_stored(StoredSettings::Malformed(msg), loaded) ==> loaded == Err::<
            Settings,
            SettingsError,
        >(SettingsError::Parse(msg)),
{
}

/// A new application browses the favourite collections with the default
/// settings, nothing loaded, selected or pending, and the first settings
/// entry remembered.
pub proof fn law_new_app_starts_browsing(app: App)
    requires
        is_initial_app(app),
    ensures
        app.running,
        app.current_state == AppState::Browsing,
        app.active_pane == ActivePane::Collections,
        app.settings.download_directory is None,
        app.settings.download_mode == DownloadMode::Direct,
        app.settings.max_concurrent_downloads == Some(4usize),
        app.settings.max_concurrent_collections == Some(1usize),
        app.settings.favorite_collections@.len() == 0,
        app.items@.len() == 0,
        app.pending_action is None,
        app.selected_setting_index == 0,
        !app.is_loading && !app.is_downloading,
{
}

// --- Texts shown ---

/// The number that a text of decimal digits stands for.
pub open spec fn digits_value(t: Seq<char>) -> int
    decreases t.len(),
{
    if t.len() == 0 {
        0
    } else {
        10 * digits_value(t.drop_last()) + (t.last() as int - 48)
    }
}

/// The decimal text of a number is made of the digits `0` to `9`, starts
/// with a non-zero digit unless the number is zero, and reads back as the
/// number.
pub proof fn law_decimal_reads_back(n: nat)
    ensures
        decimal(n).len() > 0,
        forall|i: int| 0 <= i < decimal(n).len() ==> '0' <= #[trigger] decimal(n)[i] <= '9',
        n > 0 ==> decimal(n)[0] != '0',
        digits_value(decimal(n)) == n,
    decreases n,
{
    assert((48 + n % 10) as char as int == 48 + n % 10);
    let t0 = decimal(n);
    assert(t0.last() == digit_char(n % 10));
    assert(digits_value(t0) == 10 * digits_value(t0.drop_last()) + (t0.last() as int - 48));
    if n < 10 {
        assert(t0.drop_last() =~= Seq::<char>::empty());
    } else {
        law_decimal_reads_back(n / 10);
        let t = decimal(n);
        assert(t.drop_last() =~= decimal(n / 10));
        assert(n == 10 * (n / 10) + n % 10) by (nonlinear_arith);
        assert forall|i: int| 0 <= i < t.len() implies '0' <= #[trigger] t[i] <= '9' by {
            if i < t.len() - 1 {
                assert(t[i] == decimal(n / 10)[i]);
            }
        }
        assert(t[0] == decimal(n / 10)[0]);
    }
}

/// Texts are ordered character by character: a text comes before every
/// longer text that starts with it, and at the first position where two
/// texts differ the one with the smaller character comes first.
pub proof fn law_text_order_is_lexicographic(a: Seq<char>, b: Seq<char>, k: int)
    requires
        0 <= k <= a.len(),
        k <= b.len(),
        a.take(k) == b.take(k),
    ensures
        k == a.len() ==> text_le(a, b),
        k < a.len() && k < b.len() && a[k] < b[k] ==> text_le(a, b) && !text_le(b, a),
    decreases k,
{
    if k > 0 {
        assert(a[0] == a.take(k)[0]);
        assert(b[0] == b.take(k)[0]);
        assert(a.drop_first().take(k - 1) =~= a.take(k).drop_first());
        assert(b.drop_first().take(k - 1) =~= b.take(k).drop_first());
        law_text_order_is_lexicographic(a.drop_first(), b.drop_first(), k - 1);
    }
}

/// The status bar shows, outside a download, the download status before
/// an error and an error before anything else; the bar is red whenever an
/// error is shown; while downloading it reports progress with the download
/// status.
pub proof fn law_status_bar_priority(app: App, speed: Seq<char>)
    ensures
        !app.is_downloading && app.download_status is Some ==> status_text_of(app, speed)
            == app.download_status->0@,
        !app.is_downloading && app.download_status is None && app.error_message is Some
            ==> status_text_of(app, speed) == app.error_message->0@,
        app.error_message is Some ==> status_tone_of(app) == StatusTone::Failure,
        app.error_message is None && app.download_status is None && app.is_downloading
            ==> status_tone_of(app) == StatusTone::Active,
        app.error_message is None && app.download_status is None && !app.is_downloading
            ==> status_tone_of(app) == StatusTone::Plain,
        app.is_downloading ==> "Downloading [Items: "@.is_prefix_of(status_text_of(app, speed)),
{
    reveal_strlit("Downloading [Items: ");
    reveal_strlit("");
    reveal_strlit("Error");
    reveal_strlit("Failed");
    if app.is_downloading {
        assert(status_text_of(app, speed).take(20) =~= "Downloading [Items: "@);
    }
    if app.download_status is None {
        assert(text_or(app.download_status, ""@).len() == 0);
    }
}

/// The item pane shows its list exactly when a collection is chosen, its
/// items are loaded and there is neither loading nor an error; loading is
/// shown first, then the error of the chosen collection.
pub proof fn law_item_pane_shows_list(app: App, r: Option<Notice>)
    requires
        item_list_notice_is(app, r),
    ensures
        r is None <==> (!app.is_loading && app.error_message is None && app.current_collection_name is Some
            && app.items@.len() > 0),
        app.is_loading ==> r matches Some(Notice::Loading(_)),
        !app.is_loading && app.error_message is Some && app.current_collection_name is Some ==> (
        r matches Some(Notice::Failure(m)) && m@ == "Error: "@ + app.error_message->0@),
{
}

/// Each input state draws its own input box over the view it belongs to,
/// holding the text being typed and its cursor: the setting and download
/// directory boxes the setting input, the collection box the collection
/// input; the other states draw no box.
pub proof fn law_screen_and_input_box(app: App, b: InputBox)
    ensures
        main_view_of(AppState::Browsing) == MainView::Browsing && overlay_of(AppState::Browsing)
            == Overlay::NoOverlay,
        main_view_of(AppState::ViewingItem) == MainView::Item && overlay_of(AppState::ViewingItem)
            == Overlay::NoOverlay,
        main_view_of(AppState::SettingsView) == MainView::Settings && overlay_of(AppState::SettingsView)
            == Overlay::NoOverlay,
        main_view_of(AppState::EditingSetting) == MainView::Settings && overlay_of(
            AppState::EditingSetting,
        ) == Overlay::EditSetting,
        main_view_of(AppState::AddingCollection) == MainView::Browsing && overlay_of(
            AppState::AddingCollection,
        ) == Overlay::AddCollection,
        main_view_of(AppState::AskingDownloadDir) == MainView::Browsing && overlay_of(
            AppState::AskingDownloadDir,
        ) == Overlay::AskDownloadDir,
        (input_box_is(app, Overlay::EditSetting, b) || input_box_is(app, Overlay::AskDownloadDir, b))
            ==> b.input@ == app.editing_setting_input@ && b.cursor == app.cursor_position,
        input_box_is(app, Overlay::AddCollection, b) ==> b.input@ == app.add_collection_input@
            && b.cursor == app.add_collection_cursor_pos,
{
}

/// Joining texts puts the separator between neighbours only: one text is
/// itself, and adding a text appends the separator and that text.
pub proof fn law_join_texts_separates(list: Seq<String>, x: String, sep: Seq<char>)
    ensures
        joined(seq![x], sep) == x@,
        list.len() > 0 ==> joined(list.push(x), sep) == joined(list, sep) + sep + x@,
        list.len() == 0 ==> joined(list.push(x), sep) == x@,
{
    assert(list.push(x).drop_last() =~= list);
}

// --- Bulk search ---

/// The last attempt is never followed by another: a bulk search makes at
/// most `MAX_FETCH_RETRIES` attempts.
pub proof fn law_last_attempt_finishes(outcome: BulkAttempt)
    ensures
        !is_retried(MAX_FETCH_RETRIES, outcome),
{
}

/// Only failed sends and server errors are retried: replies that were read,
/// bodies that could not be read or parsed, and client errors end the search.
pub proof fn law_only_transient_failures_retried(attempt: u32, outcome: BulkAttempt)
    requires
        is_retried(attempt, outcome),
    ensures
        outcome is SendFailed || (outcome matches BulkAttempt::Status(s) && 500 <= s <= 599),
{
}

/// What a step of the bulk search does with each outcome of an attempt
/// before the last: a failed send and every server error (5xx) wait
/// `2^(attempt - 1)` seconds and go on to the next attempt; any other
/// status, and an unsendable request, an unreadable or malformed body, end
/// the search with that failure of this attempt; parsed items end it with
/// those items.
pub proof fn law_bulk_step_outcomes(attempt: u32, outcome: BulkAttempt, next: u32, step: BulkStep)
    requires
        1 <= attempt < MAX_FETCH_RETRIES,
        bulk_step(attempt, outcome, next, step),
    ensures
        (outcome is SendFailed || (outcome matches BulkAttempt::Status(s) && 500 <= s <= 599)) ==> (
        step matches BulkStep::RetryAfter(secs) && secs == backoff_secs(attempt as nat) && next
            == attempt + 1),
        (outcome matches BulkAttempt::Status(s) && !(500 <= s <= 599)) ==> (step == BulkStep::Finished(
            Err(BulkFetchError { attempt: attempt, failure: BulkFailure::Status(outcome->Status_0) }),
        ) && next == attempt),
        (outcome matches BulkAttempt::BodyUnreadable(m) ==> step == BulkStep::Finished(
            Err(BulkFetchError { attempt: attempt, failure: BulkFailure::Body(m) }),
        )),
        (outcome matches BulkAttempt::Malformed(m) ==> step == BulkStep::Finished(
            Err(BulkFetchError { attempt: attempt, failure: BulkFailure::Parse(m) }),
        )),
        outcome is NotClonable ==> step == BulkStep::Finished(
            Err(BulkFetchError { attempt: attempt, failure: BulkFailure::NotClonable }),
        ),
        (outcome matches BulkAttempt::Parsed(docs, total) ==> step == BulkStep::Finished(
            Ok((docs, total)),
        )),
{
}

/// At the last attempt every outcome ends the search: with the items, or
/// with the failure of that attempt.
pub proof fn law_last_attempt_reports_failure(outcome: BulkAttempt, next: u32, step: BulkStep)
    requires
        bulk_step(MAX_FETCH_RETRIES, outcome, next, step),
    ensures
        next == MAX_FETCH_RETRIES,
        (outcome matches BulkAttempt::Status(s)) ==> step == BulkStep::Finished(
            Err(BulkFetchError { attempt: MAX_FETCH_RETRIES, failure: BulkFailure::Status(outcome->Status_0) }),
        ),
        (outcome matches BulkAttempt::SendFailed(m) ==> step == BulkStep::Finished(
            Err(BulkFetchError { attempt: MAX_FETCH_RETRIES, failure: BulkFailure::Send(m) }),
        )),
{
}

/// The wait doubles from one retry to the next, starting at one second.
pub proof fn law_backoff_doubles(attempt: nat)
    requires
        attempt >= 1,
    ensures
        backoff_secs(1) == 1,
        backoff_secs(attempt + 1) == 2 * backoff_secs(attempt),
{
}

/// Unwrapping a `callback(...)` reply gives back the JSON it wraps.
pub proof fn law_jsonp_unwraps(payload: Seq<char>)
    ensures
        jsonp_payload("callback("@ + payload + ")"@) == payload,
{
    reveal_strlit("callback(");
    reveal_strlit(")");
    let body = "callback("@ + payload + ")"@;
    assert(body.take(9) =~= "callback("@);
    assert(body.subrange(9, body.len() - 1) =~= payload);
}

// --- Download paths ---

/// The download path of a file is the item's download directory joined with
/// the file name.
pub proof fn law_file_path_in_item_dir(app: App, file: FileDetails)
    ensures
        file_download_path(app, file) == match item_download_path(app) {
            Some(dir) => Some(join_path(dir, file.name@)),
            None => None::<Seq<char>>,
        },
{
}

/// Without a download directory or an item being viewed there is no
/// download path.
pub proof fn law_no_download_path_without_directory(app: App, file: FileDetails)
    requires
        app.settings.download_directory is None || app.viewing_item_id is None,
    ensures
        item_download_path(app) is None,
        file_download_path(app, file) is None,
{
}

/// Downloads go under the download directory, in a folder named by the
/// item: for a directory such as `/data` and item `x`, the item's folder is
/// `/data/x` and its file `f` goes to `/data/x/f`.
pub proof fn law_download_paths(app: App, file: FileDetails, dir: String, item: String)
    requires
        app.settings.download_directory == Some(dir),
        app.viewing_item_id == Some(item),
        dir@.len() > 0 && dir@.last() != '/',
        item@.len() > 0 && item@[0] != '/' && item@.last() != '/',
        file.name@.len() > 0 && file.name@[0] != '/',
    ensures
        item_download_path(app) == Some(dir@ + seq!['/'] + item@),
        file_download_path(app, file) == Some(dir@ + seq!['/'] + item@ + seq!['/'] + file.name@),
{
    let j = dir@ + seq!['/'] + item@;
    assert(j.last() == item@.last());
}

/// Loading settings selects the first favourite collection, or nothing when
/// there are none.
pub proof fn law_loading_selects_first_favourite(settings: Settings)
    ensures
        settings.favorite_collections@.len() > 0 ==> initial_collection_selection(settings) == Some(
            0usize,
        ),
        settings.favorite_collections@.len() == 0 ==> initial_collection_selection(settings) is None,
{
}

/// Joining a relative part keeps the base directory as a prefix.
pub proof fn law_join_keeps_base(base: Seq<char>, part: Seq<char>)
    requires
        part.len() == 0 || part[0] != '/',
    ensures
        base.is_prefix_of(join_path(base, part)),
{
    assert(join_path(base, part).take(base.len() as int) =~= base);
}

/// Joining always ends with the part joined; an absolute part replaces the
/// base; a relative part follows the base after exactly one `/` (none is
/// added when the base is empty or already ends in one).
pub proof fn law_join_places_part(base: Seq<char>, part: Seq<char>)
    ensures
        part.is_suffix_of(join_path(base, part)),
        part.len() > 0 && part[0] == '/' ==> join_path(base, part) == part,
        (part.len() == 0 || part[0] != '/') && base.len() > 0 && base.last() != '/' ==> (join_path(
            base,
            part,
        ).len() == base.len() + 1 + part.len() && join_path(base, part)[base.len() as int] == '/'),
        (part.len() == 0 || part[0] != '/') && (base.len() == 0 || base.last() == '/') ==> join_path(
            base,
            part,
        ).len() == base.len() + part.len(),
{
    let j = join_path(base, part);
    assert(j.skip(j.len() - part.len()) =~= part);
}

/// The librarian's directories lie in `.riffcc/librarian` under the home
/// directory: for a home such as `/home/user`, the downloads go to
/// `/home/user/.riffcc/librarian/downloads`, and the thumbnails of the
/// cache directory `c` to `c/thumbnails/{identifier}.jpg`.
pub proof fn law_directory_layout(home: Seq<char>)
    requires
        home.len() > 0,
        home.last() != '/',
    ensures
        join_path(base_dir(home), "downloads"@) == home + "/.riffcc/librarian/downloads"@,
        join_path(base_dir(home), "cache"@) == home + "/.riffcc/librarian/cache"@,
{
    reveal_strlit(".riffcc");
    reveal_strlit("librarian");
    reveal_strlit("downloads");
    reveal_strlit("cache");
    reveal_strlit("/.riffcc/librarian/downloads");
    reveal_strlit("/.riffcc/librarian/cache");
    let r = join_path(home, ".riffcc"@);
    assert(r =~= home + seq!['/'] + ".riffcc"@);
    let b = join_path(r, "librarian"@);
    assert(b =~= r + seq!['/'] + "librarian"@);
    assert(join_path(b, "downloads"@) =~= home + "/.riffcc/librarian/downloads"@);
    assert(join_path(b, "cache"@) =~= home + "/.riffcc/librarian/cache"@);
}

/// The bulk search asks for the items of the named collection (the query
/// holds the name), for their identifiers only, all of them in one page of
/// `BULK_ROWS` rows, as JSON.
pub proof fn law_bulk_query_asks_for_collection(name: Seq<char>, params: Seq<(String, String)>)
    requires
        bulk_search_params(name, params),
    ensures
        occurs_in(params[0].1@, name),
        params[1].1@ == "identifier"@,
        digits_value(params[2].1@) == BULK_ROWS,
        params[3].1@ == "json"@,
{
    reveal_strlit("collection:\"");
    let q = params[0].1@;
    let k = "collection:\""@.len() as int;
    assert(q.subrange(k, k + name.len()) =~= name);
    law_decimal_reads_back(BULK_ROWS as nat);
}

// --- Gamepad grid ---

/// A focus within the grid stays within the grid.
pub proof fn law_focus_stays_in_grid(current: int, cols: int, max_index: int, dir: Direction)
    requires
        0 <= current <= max_index,
        cols >= 0,
    ensures
        0 <= moved_focus(current, cols, max_index, dir) <= max_index,
{
}

/// In a grid of `cols` columns, moving up from a focus below the first row
/// lands on the item just above it (same column, one row up), and moving
/// down from there comes back; moving down where a row below holds an item
/// lands on it, and moving up from there comes back; left and right move by
/// one within the items and undo each other.
pub proof fn law_focus_moves_undo(current: int, cols: int, max_index: int)
    requires
        0 <= current <= max_index,
        cols > 0,
    ensures
        current >= cols ==> moved_focus(current, cols, max_index, Direction::Up) == current - cols,
        current >= cols ==> moved_focus(
            moved_focus(current, cols, max_index, Direction::Up),
            cols,
            max_index,
            Direction::Down,
        ) == current,
        current < cols ==> moved_focus(current, cols, max_index, Direction::Up) == current,
        current + cols <= max_index ==> moved_focus(current, cols, max_index, Direction::Down) == current
            + cols,
        current + cols <= max_index ==> moved_focus(
            moved_focus(current, cols, max_index, Direction::Down),
            cols,
            max_index,
            Direction::Up,
        ) == current,
        current + cols > max_index ==> moved_focus(current, cols, max_index, Direction::Down) == current,
        current > 0 ==> moved_focus(
            moved_focus(current, cols, max_index, Direction::Left),
            cols,
            max_index,
            Direction::Right,
        ) == current,
        current < max_index ==> moved_focus(
            moved_focus(current, cols, max_index, Direction::Right),
            cols,
            max_index,
            Direction::Left,
        ) == current,
{
}

/// A (south) downloads every selected item when any is selected, and the
/// focused item otherwise; X selects the focused item and Y plays it; B and
/// the right trigger act on the player only while it is shown.
pub proof fn law_button_actions(current: i32, selected: i32, player_visible: bool)
    ensures
        selected > 0 ==> button_action_of(PadButton::South, current, selected, player_visible)
            == PadAction::DownloadSelected,
        selected <= 0 ==> button_action_of(PadButton::South, current, selected, player_visible)
            == PadAction::DownloadItem(current),
        button_action_of(PadButton::West, current, selected, player_visible) == PadAction::ToggleSelect(
            current,
        ),
        button_action_of(PadButton::North, current, selected, player_visible) == PadAction::Play(current),
        !player_visible ==> button_action_of(PadButton::East, current, selected, player_visible)
            == PadAction::NoAction && button_action_of(
            PadButton::RightTrigger,
            current,
            selected,
            player_visible,
        ) == PadAction::NoAction,
        player_visible ==> button_action_of(PadButton::East, current, selected, player_visible)
            == PadAction::ClosePlayer && button_action_of(
            PadButton::RightTrigger,
            current,
            selected,
            player_visible,
        ) == PadAction::TogglePlayback,
{
}

proof fn lemma_selected_count_update(marks: Seq<ItemMark>, i: int, m: ItemMark)
    requires
        0 <= i < marks.len(),
    ensures
        selected_count(marks.update(i, m)) + (if marks[i].selected {
            1int
        } else {
            0
        }) == selected_count(marks) + (if m.selected {
            1int
        } else {
            0
        }),
    decreases marks.len(),
{
    let u = marks.update(i, m);
    if i == marks.len() - 1 {
        assert(u.drop_last() =~= marks.drop_last());
    } else {
        assert(u.drop_last() =~= marks.drop_last().update(i, m));
        lemma_selected_count_update(marks.drop_last(), i, m);
    }
}

/// Selecting an item that was not selected adds one to the number of
/// selected items, and deselecting one takes one away.
pub proof fn law_toggle_changes_count_by_one(marks: Seq<ItemMark>, index: int)
    requires
        0 <= index < marks.len(),
    ensures
        !marks[index].selected ==> selected_count(marks.update(index, toggled_mark(marks[index])))
            == selected_count(marks) + 1,
        marks[index].selected ==> selected_count(marks.update(index, toggled_mark(marks[index]))) + 1
            == selected_count(marks),
{
    lemma_selected_count_update(marks, index, toggled_mark(marks[index]));
}

/// Selecting an item twice gives back its selection, and leaves it visited.
pub proof fn law_toggle_twice(m: ItemMark)
    ensures
        toggled_mark(toggled_mark(m)).selected == m.selected,
        toggled_mark(toggled_mark(m)).visited,
{
}

} // verus!
