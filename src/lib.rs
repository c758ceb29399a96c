//! Core of a floating-pane resize overlay: a positional index of the
//! floating panes of the current session, cursor navigation over it, a
//! selection that survives snapshots, and a two-stage numeric input that
//! produces resize requests.
pub mod snapshot;
pub mod pane_index;
pub mod navigation;
pub mod resize_input;
pub mod selection;
pub mod overlay;
