//! Core logic of a wallpaper daemon that rotates a per-monitor background
//! image on a schedule.
//!
//! The crate covers the two stateful subsystems of such a daemon:
//!
//! * [`image_loader`]: a cache of background image decodes, one in-flight
//!   decode task per file path, deduplicating concurrent requests and
//!   reclaiming each entry once its last requester has consumed the result;
//! * [`surface`]: the per-monitor scheduling state, which reconciles
//!   configuration changes against the in-flight rotation timer and decides
//!   when a surface must be redrawn.
//!
//! Everything that touches the display protocol, the GPU, the filesystem or
//! worker threads stays outside this crate: the functions here take the
//! observations those components produce (a poll of a decode task, the
//! milliseconds elapsed since the image changed) as plain values and return
//! the decisions to act on (spawn a decode, cancel or arm a timer, queue a
//! redraw).

pub mod image_loader;
pub mod surface;
