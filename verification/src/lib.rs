//! Discovers which OpenGL (or OpenGL ES) driver a host exposes and reports
//! its vendor, renderer, version, and shading-language strings.
//!
//! The platform work (opening a display, creating an invisible window,
//! negotiating a GL context, loading entry points) happens in an unverified
//! shell around this crate. This crate holds the decision logic of that
//! pipeline: the fixed three-tier context fallback, the acquisition state
//! machine, decoding of the driver's identity strings, the report format,
//! and the command-line surface.

pub mod cli;
pub mod negotiate;
pub mod pipeline;
pub mod probe;
pub mod report;
