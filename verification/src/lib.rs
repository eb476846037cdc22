//! Core of a screen-dimming utility: a single 0-100 intensity slider is
//! mapped onto hardware backlight brightness and the opacity of a
//! full-screen darkening overlay, extending the perceived brightness range
//! below the monitor's hardware floor. A tray-icon control surface feeds
//! show/hide and quit requests over a channel into the UI event loop.

pub mod bridge;
pub mod controller;
pub mod dispatch;
pub mod mapper;
pub mod overlay;
pub mod widestr;
