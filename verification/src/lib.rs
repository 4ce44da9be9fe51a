//! Core of a keyboard-driven browser for a paginated remote object store.
//!
//! The crate verifies the pieces with real invariants: the filterable,
//! selectable list ([`list::ScrollableList`]), the search bar and its
//! subsequence matcher ([`search::SearchBar`]), the content-preview
//! formatting pipeline ([`preview`]), the pagination state machines of the
//! browsing views ([`state`]), and the action dispatcher ([`events`]).
//! Terminal rendering, key decoding and the remote-store client are outside
//! collaborators: they hand plain values in and take plain values out.

pub mod actions;
pub mod events;
pub mod list;
pub mod preview;
pub mod search;
pub mod state;
pub mod text;
pub mod util;
