//! Host regression reports and gates for GPUI adapter conformance.

pub mod catalog;

pub use catalog::{
    OpenGpuiProductFixtureCase, OpenGpuiProductFixtureFamily, OpenGpuiProductFixtureKind,
    product_fixture_catalog,
};
pub mod host_surface;
pub mod visual;
pub mod interaction;
pub mod lifecycle;
pub mod screenshot;
pub mod regression;
