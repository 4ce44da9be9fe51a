//! The closed set of high-level actions a keymap can produce.  Decoding raw
//! key events into these actions is the caller's concern.

use vstd::prelude::*;

verus! {

/// Every action the dispatcher understands: cursor movement and paging,
/// search editing, selection, paging the remote source, download, refresh,
/// and leaving.
#[derive(Clone, Copy, Debug, PartialEq, Eq)]
pub enum AppActions {
    MoveLeft,
    MoveDown,
    MoveUp,
    MoveRight,
    MoveToTop,
    MoveToBottom,
    MoveToLineStart,
    MoveToLineEnd,
    PageDown,
    PageUp,
    HalfPageDown,
    HalfPageUp,
    StartSearch,
    StartFilterSearch,
    SearchInput(char),
    SearchDelete,
    Enter,
    ClearSearch,
    Exit,
    GoBack,
    LoadMore,
    Download,
    Refresh,
    NoAction,
}

} // verus!
