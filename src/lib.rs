//! Logic behind a popup panel anchored under a system-tray icon: where the
//! panel goes when the icon is clicked, whether it shows or hides, the
//! one-time hand-over of the click channel's consumer, and the session
//! decisions of the views (when to fetch vehicles, the lock command's busy
//! flag).
use vstd::prelude::*;

pub mod geometry;
pub mod panel;
pub mod channel;
pub mod vehicle;
pub mod session;
