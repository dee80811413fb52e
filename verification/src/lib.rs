//! Core state machine of a terminal dashboard over a remote
//! "board -> pipelines -> issues" hierarchy.
//!
//! The crate keeps a local view of the board synchronized under partial,
//! concurrent, possibly-failing loads, drives navigation from multi-key
//! command chords, and sizes dynamic label regions with a constrained-width
//! packing algorithm. All state transitions and layout computations live
//! here, verified; network, terminal painting and other I/O live with the
//! binary that embeds this crate.

pub mod colour;
pub mod credentials;
pub mod decimal;
pub mod edit;
pub mod layout;
pub mod input;
pub mod reducer;
pub mod render;
pub mod theme;
pub mod store;
pub mod github;
pub mod view;
pub mod zenhub;
