//! Browsing the directory tree of a read-only NTFS volume image: name
//! resolution, directory listings, hard-link path reconstruction, the
//! navigation breadcrumb and the generation-tagged display state.
pub mod names;
pub mod listing;
pub mod display;
pub mod dispatch;
pub mod navigation;
pub mod enrich;
pub mod hardlink;
