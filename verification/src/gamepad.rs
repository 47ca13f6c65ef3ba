//! Gamepad control of the item grid: moving the focus, what each button
//! does, and marking items for download.
use vstd::prelude::*;
use vstd::string::StringExecFns;

verus! {

/// A direction of the D-pad or of the left stick.
#[derive(Clone, Copy, Debug, PartialEq, Eq, Structural)]
pub enum Direction {
    Left,
    Right,
    Up,
    Down,
}

/// The buttons that the grid reacts to.
#[derive(Clone, Copy, Debug, PartialEq, Eq, Structural)]
pub enum PadButton {
    /// A (south): download.
    South,
    /// X (west): select or deselect.
    West,
    /// Y (north): play.
    North,
    /// B (east): back.
    East,
    /// Right bumper: play or pause.
    RightTrigger,
    /// Any other button.
    Other,
}

/// What the grid does on a button press.
#[derive(Clone, Copy, Debug, PartialEq, Eq, Structural)]
pub enum PadAction {
    /// Download every selected item.
    DownloadSelected,
    /// Download the item at this index.
    DownloadItem(i32),
    /// Select or deselect the item at this index.
    ToggleSelect(i32),
    /// Play the item at this index and show the player.
    Play(i32),
    /// Hide the player.
    ClosePlayer,
    /// Play or pause the player.
    TogglePlayback,
    /// Nothing.
    NoAction,
}

/// The focus index after moving in direction `dir` in a grid of `cols` columns
/// whose last index is `max_index`: a move that would leave the grid keeps
/// the focus.
pub open spec fn moved_focus(current: int, cols: int, max_index: int, dir: Direction) -> int {
    match dir {
        Direction::Left => if current > 0 {
            current - 1
        } else {
            current
        },
        Direction::Right => if current < max_index {
            current + 1
        } else {
            current
        },
        Direction::Up => if current - cols >= 0 {
            current - cols
        } else {
            current
        },
        Direction::Down => if current + cols <= max_index {
            current + cols
        } else {
            current
        },
    }
}

/// Whether the arithmetic of a move stays within `i32`.
pub open spec fn move_fits(current: i32, cols: i32, dir: Direction) -> bool {
    match dir {
        Direction::Up => i32::MIN <= current - cols <= i32::MAX,
        Direction::Down => i32::MIN <= current + cols <= i32::MAX,
        _ => true,
    }
}

/// The focus index after moving in direction `dir`.
pub fn move_focus(current: i32, cols_per_row: i32, max_index: i32, dir: Direction) -> (r: i32)
    requires
        move_fits(current, cols_per_row, dir),
    ensures
        r == moved_focus(current as int, cols_per_row as int, max_index as int, dir),
{
    match dir {
        Direction::Left => if current > 0 {
            current - 1
        } else {
            current
        },
        Direction::Right => if current < max_index {
            current + 1
        } else {
            current
        },
        Direction::Up => {
            let new_index = current - cols_per_row;
            if new_index >= 0 {
                new_index
            } else {
                current
            }
        },
        Direction::Down => {
            let new_index = current + cols_per_row;
            if new_index <= max_index {
                new_index
            } else {
                current
            }
        },
    }
}

/// What a button press does, with the focus at `current`, `selected_count`
/// items selected and the player shown or not.
pub open spec fn button_action_of(button: PadButton, current: i32, selected_count: i32, player_visible: bool) -> PadAction {
    match button {
        PadButton::South => if selected_count > 0 {
            PadAction::DownloadSelected
        } else {
            PadAction::DownloadItem(current)
        },
        PadButton::West => PadAction::ToggleSelect(current),
        PadButton::North => PadAction::Play(current),
        PadButton::East => if player_visible {
            PadAction::ClosePlayer
        } else {
            PadAction::NoAction
        },
        PadButton::RightTrigger => if player_visible {
            PadAction::TogglePlayback
        } else {
            PadAction::NoAction
        },
        PadButton::Other => PadAction::NoAction,
    }
}

/// What a button press does.
pub fn button_action(button: PadButton, current: i32, selected_count: i32, player_visible: bool) -> (r: PadAction)
    ensures
        r == button_action_of(button, current, selected_count, player_visible),
{
    match button {
        PadButton::South => if selected_count > 0 {
            PadAction::DownloadSelected
        } else {
            PadAction::DownloadItem(current)
        },
        PadButton::West => PadAction::ToggleSelect(current),
        PadButton::North => PadAction::Play(current),
        PadButton::East => if player_visible {
            PadAction::ClosePlayer
        } else {
            PadAction::NoAction
        },
        PadButton::RightTrigger => if player_visible {
            PadAction::TogglePlayback
        } else {
            PadAction::NoAction
        },
        PadButton::Other => PadAction::NoAction,
    }
}

/// Whether an item of the grid is selected for download, and whether it has
/// been visited.
#[derive(Clone, Copy, Debug, PartialEq, Eq, Structural)]
pub struct ItemMark {
    pub selected: bool,
    pub visited: bool,
}

/// The mark of an item after selecting or deselecting it: selection flipped,
/// and visited.
pub open spec fn toggled_mark(m: ItemMark) -> ItemMark {
    ItemMark { selected: !m.selected, visited: true }
}

/// Number of selected marks in `marks`.
pub open spec fn selected_count(marks: Seq<ItemMark>) -> nat
    decreases marks.len(),
{
    if marks.len() == 0 {
        0
    } else {
        selected_count(marks.drop_last()) + if marks.last().selected {
            1nat
        } else {
            0nat
        }
    }
}

/// The marks after selecting or deselecting the item at `index` (no change
/// when `index` is not an index of `marks`), with the number now selected.
pub fn toggle_select(marks: &Vec<ItemMark>, index: i32) -> (r: (Vec<ItemMark>, usize))
    ensures
        0 <= index < marks@.len() ==> r.0@ == marks@.update(index as int, toggled_mark(marks@[index as int])),
        !(0 <= index < marks@.len()) ==> r.0@ == marks@,
        r.1 == selected_count(r.0@),
{
    let mut out: Vec<ItemMark> = Vec::new();
    let mut count: usize = 0;
    let mut i: usize = 0;
    let ghost target = if 0 <= index < marks@.len() {
        marks@.update(index as int, toggled_mark(marks@[index as int]))
    } else {
        marks@
    };
    while i < marks.len()
        invariant
            i <= marks@.len(),
            target.len() == marks@.len(),
            target == if 0 <= index < marks@.len() {
                marks@.update(index as int, toggled_mark(marks@[index as int]))
            } else {
                marks@
            },
            out@ == target.take(i as int),
            count == selected_count(out@),
            count <= i,
        decreases marks.len() - i,
    {
        let m = marks[i];
        let new_mark = if index >= 0 && i == index as usize {
            ItemMark { selected: !m.selected, visited: true }
        } else {
            m
        };
        out.push(new_mark);
        assert(out@.drop_last() =~= target.take(i as int));
        assert(target.take(i + 1) =~= out@);
        if new_mark.selected {
            count = count + 1;
        }
        i = i + 1;
    }
    assert(target.take(marks@.len() as int) =~= target);
    (out, count)
}

/// What entering an item does.
#[derive(Clone, Copy, Debug, PartialEq, Eq, Structural)]
pub enum EnterKind {
    /// The item is a collection: browse into it.
    OpenCollection,
    /// Show the item's details.
    ShowDetails,
}

/// What entering an item of type `item_type` does.
pub fn enter_kind(item_type: &str) -> (r: EnterKind)
    ensures
        item_type@ == "Collection"@ ==> r == EnterKind::OpenCollection,
        item_type@ != "Collection"@ ==> r == EnterKind::ShowDetails,
{
    let t = String::from_str(item_type);
    if crate::text::same_text(&t, &String::from_str("Collection")) {
        EnterKind::OpenCollection
    } else {
        EnterKind::ShowDetails
    }
}

} // verus!
