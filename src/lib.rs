//! Version resolution and download artifact naming for the Node.js runtime.
pub mod alias;
pub mod artifact;
pub mod catalog;
pub mod manifest;
pub mod platform;
pub mod tool;
pub mod version;

pub use alias::{resolve_version, ResolveVersionOutput};
pub use artifact::{download_prebuilt, DownloadPrebuiltOutput};
pub use catalog::{load_versions, CatalogEntry, LoadVersionsOutput};
pub use manifest::{
    detect_version_files, parse_version_file, BinField, PackageJson, ParseVersionFileOutput, VoltaField,
};
pub use platform::{is_supported, map_arch, Arch, Os};
pub use tool::{
    create_shims, locate_bins, post_install, register_tool, CreateShimsOutput, LocateBinsOutput, ToolMetadataOutput,
};
pub use version::{parse_spec, PluginError, UnresolvedSpec, Version, VersionSpec};
