//! A small adapter that lets an audio-plugin host display a web-rendered
//! user interface inside a plugin window it owns.
//!
//! The crate has two parts: a window-handle adapter, which converts the
//! host's platform-tagged window reference into the handle representation
//! the embedding API requires, and an editor shim, which drives the
//! lifecycle of the embedded web-view (spawn into a parent window, size
//! queries, scale-factor and parameter-change notifications).
//!
//! The web-view itself and the host's windowing types live outside this
//! crate; here they are modelled by plain values (addresses, bounds,
//! reference counts), so that the adapter's and the shim's decisions can
//! be verified. The surrounding glue that talks to the real windowing and
//! web-view libraries converts at the boundary.

pub mod editor;
pub mod handle;

pub use editor::create_wry_editor;
