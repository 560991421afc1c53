//! Surface lifecycle management for a graphics-application bootstrap.
//!
//! The library holds the decision logic of the bootstrap: which instance
//! extensions and layers to request, how the drawable surface must be
//! created and destroyed across window suspend/resume transitions, in
//! which order the backend resources may be acquired and released, and
//! how diagnostic messages are rendered. The calls into the windowing
//! toolkit and the graphics backend themselves live outside the library.

pub mod config;
pub mod diagnostics;
pub mod lifecycle;
pub mod ordering;
pub mod version;
