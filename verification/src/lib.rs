//! Selection resolution and preview routing for a quick-preview desktop utility.
//!
//! The crate holds the decisions of the preview pipeline as pure functions over
//! plain values: which kind of window has the focus, whether a trigger is to be
//! suppressed, which item of a shell selection is previewed, how a path maps to
//! a content kind and a navigation route, and how the single preview window is
//! created and reused.
//!
//! Beside the pipeline stand the readers that the preview surface calls on
//! once a file is shown: the directory tree of an archive listing, and the
//! lines of a lyric file.
//!
//! Nothing here touches the window system, the file system or a thread. The
//! caller gathers what they have to say and carries out what the library
//! decides.

pub mod text;
pub mod kind;
pub mod path;
pub mod file;
pub mod route;
pub mod window;
pub mod guard;
pub mod hotkey;
pub mod selection;
pub mod address;
pub mod size;
pub mod lifecycle;
pub mod pipeline;
pub mod archive;
pub mod document;
pub mod lyrics;
pub mod listed;
