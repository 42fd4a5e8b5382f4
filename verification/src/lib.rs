//! Icon acquisition for filesystem entries.
//!
//! Given a path, the library decides how that path's icon is obtained:
//! shortcut files are resolved to their targets first, then a native icon
//! resource is extracted, rasterized into a fixed-size pixel buffer, and
//! encoded as a data URI.  The platform calls themselves (process spawn,
//! native resource subsystem, launcher) live outside the library; every
//! decision around them is verified here.

pub mod classify;
pub mod icon;
pub mod encode;
pub mod launch;
pub mod raster;
pub mod resolver;
pub mod service;
pub mod wide;
