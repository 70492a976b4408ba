//! Turns a published game directory into a sandboxed flatpak bundle.
//!
//! The pipeline infers the entry executable from a `*.runtimeconfig.json`
//! sidecar file, synthesizes a flatpak manifest, and drives two external
//! build tools (`flatpak-builder`, then `flatpak build-bundle`). The logic
//! here is pure: a driver performs the filesystem and process work and
//! feeds the results back as events.

pub mod errors;
pub mod ids;
pub mod manifest;
pub mod paths;
pub mod pipeline;
pub mod resolve;

pub use errors::BuildError;
pub use ids::flatpak_id_for_game;
pub use manifest::{manifest_to_yaml, synthesize_manifest, FlatpakManifest};
pub use pipeline::{Action, Event, Phase, Pipeline};
pub use resolve::resolve_entry_point;
