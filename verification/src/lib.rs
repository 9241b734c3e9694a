//! Core of a tray-resident notes window: the decisions behind saving a note
//! without ever leaving it half written, and behind showing, hiding and
//! pinning the window. The host performs the file and window operations; the
//! functions here decide which ones, and their contracts say exactly which.

pub mod clock;
pub mod files;
pub mod geometry;
pub mod greeting;
pub mod store;
pub mod visibility;
