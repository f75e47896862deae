//! The status bar's decisions: when a screen repaints, what the Warp, desktop
//! notification, KDE Connect, media and window-manager feeds report, and how
//! configuration reloads. The Wayland, D-Bus and socket plumbing around them
//! hands these models plain values and carries out what they return.
pub mod redraw;
pub mod frame;
pub mod seat;
pub mod warp;
pub mod notification;
pub mod kdeconnect;
pub mod ipc;
pub mod media;
pub mod config;
pub mod clock;
pub mod shell;
