//! Window placement and persistence for a desktop widget window.
//!
//! The crate decides; the host program acts. Every function here works on
//! plain values: the bytes of the geometry file, the notifications that the
//! windowing toolkit delivers, the replies of the native window manager. What
//! comes back is the record to write or the native call to make.

pub mod decimal;
pub mod focus;
pub mod geometry;
pub mod json;
pub mod model;
pub mod native;
pub mod placement;
pub mod record;
pub mod store;
pub mod style;
pub mod tracker;
pub mod wallpaper;
pub mod zorder;
