//! A slideshow coordination engine.
//!
//! The crate implements a small, single-threaded, timestamp-driven dataflow
//! core: a logical clock with capabilities and frontiers, a ticker that paces
//! "show the next image" events, a retry-bounded loader that pulls paths from
//! a provider, two joins that combine decoded images and status text with the
//! current viewport configuration, a compose stage that infers blanking
//! instructions, and a driver that schedules all of the above and hands
//! render instructions to a display.
//!
//! Everything that touches the outside world (decoding image files, reading
//! metadata, rasterizing glyphs, drawing on a display) is kept behind narrow
//! interfaces: the engine works on plain values and decides; the surrounding
//! program performs the requested work and feeds the results back in.

pub mod clock;
pub mod compose;
pub mod config;
pub mod dataflow;
pub mod driver;
pub mod errors;
pub mod layout;
pub mod loader;
pub mod provider;
pub mod provider_directory;
pub mod provider_glob;
pub mod provider_list;
pub mod resize;
pub mod ticker;
